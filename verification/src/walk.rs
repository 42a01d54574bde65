//! The walk over the syntax of one declaration.
//!
//! The walk hands every block of the declaration to the analyzer, the blocks
//! nested inside other blocks too, and not only the body of the component: a
//! callback defined in the body gets a probe and has its hook calls counted
//! like the body itself. A block is handed over after the blocks inside it,
//! so the block analyzed last is the last one that lies in no other block.
use crate::component::{
    counted, declarators_calls, direct_calls, expr_calls, probe_stmt, stmt_calls, HookKind,
    ReactRefreshRuntimeComponent,
};
use crate::syntax::{
    args_view, blocks_view, declarators_view, opt_ident_view, specifiers_view, stmts_view, Block,
    BlockView, Decl, DeclView, DefaultDecl, DefaultDeclView, Expr, ExprOrSpread, ExprOrSpreadView,
    ExprView, Ident, ImportSpecifier, ModuleDecl, ModuleDeclView, ModuleItem, ModuleItemView, Pat,
    Stmt, StmtView, VarDeclarator, VarDeclaratorView,
};
use crate::utils::ident_str;
use vstd::prelude::*;

verus! {

/// The blocks of an expression, in the order in which the walk analyzes them.
pub open spec fn expr_blocks(e: ExprView) -> Seq<BlockView>
    decreases e,
{
    match e {
        ExprView::Ident(_) => Seq::empty(),
        ExprView::Str(_) => Seq::empty(),
        ExprView::Bool(_) => Seq::empty(),
        ExprView::Member(obj, _) => expr_blocks(*obj),
        ExprView::Assign(left, right) => expr_blocks(*left) + expr_blocks(*right),
        ExprView::Call(callee, args) => expr_blocks(*callee) + args_blocks(args),
        ExprView::Fn(_, blocks) => blocks_blocks(blocks),
        ExprView::Arrow(blocks) => blocks_blocks(blocks),
        ExprView::Other(blocks) => blocks_blocks(blocks),
    }
}

/// The blocks of the arguments of a call, first argument first.
pub open spec fn args_blocks(args: Seq<ExprOrSpreadView>) -> Seq<BlockView>
    decreases args,
{
    if args.len() == 0 {
        Seq::empty()
    } else {
        args_blocks(args.drop_last()) + expr_blocks(*args.last().expr)
    }
}

/// The blocks of the initialisers of a declaration, first declarator first.
pub open spec fn declarators_blocks(ds: Seq<VarDeclaratorView>) -> Seq<BlockView>
    decreases ds,
{
    if ds.len() == 0 {
        Seq::empty()
    } else {
        declarators_blocks(ds.drop_last()) + match ds.last().init {
            Some(e) => expr_blocks(*e),
            None => Seq::empty(),
        }
    }
}

/// The blocks of a declaration.
pub open spec fn decl_blocks(d: DeclView) -> Seq<BlockView>
    decreases d,
{
    match d {
        DeclView::Class(_, blocks) => blocks_blocks(blocks),
        DeclView::Fn(_, blocks) => blocks_blocks(blocks),
        DeclView::Var(_, ds) => declarators_blocks(ds),
    }
}

/// The blocks of a statement.
pub open spec fn stmt_blocks(s: StmtView) -> Seq<BlockView>
    decreases s,
{
    match s {
        StmtView::Expr(e) => expr_blocks(e),
        StmtView::Decl(d) => decl_blocks(d),
        StmtView::Other(blocks) => blocks_blocks(blocks),
    }
}

/// The blocks of a list of statements, first statement first.
pub open spec fn stmts_blocks(stmts: Seq<StmtView>) -> Seq<BlockView>
    decreases stmts,
{
    if stmts.len() == 0 {
        Seq::empty()
    } else {
        stmts_blocks(stmts.drop_last()) + stmt_blocks(stmts.last())
    }
}

/// The blocks inside `b`, then `b` itself.
pub open spec fn block_blocks(b: BlockView) -> Seq<BlockView>
    decreases b,
{
    stmts_blocks(b.stmts).push(b)
}

/// The blocks of a list of blocks: for each in turn, the blocks inside it
/// and then the block itself.
pub open spec fn blocks_blocks(blocks: Seq<BlockView>) -> Seq<BlockView>
    decreases blocks,
{
    if blocks.len() == 0 {
        Seq::empty()
    } else {
        blocks_blocks(blocks.drop_last()) + block_blocks(blocks.last())
    }
}

/// An expression with the probe in front of each of its blocks.
pub open spec fn probed_expr(e: ExprView) -> ExprView
    decreases e,
{
    match e {
        ExprView::Ident(_) => e,
        ExprView::Str(_) => e,
        ExprView::Bool(_) => e,
        ExprView::Member(obj, prop) => ExprView::Member(Box::new(probed_expr(*obj)), prop),
        ExprView::Assign(left, right) => ExprView::Assign(
            Box::new(probed_expr(*left)),
            Box::new(probed_expr(*right)),
        ),
        ExprView::Call(callee, args) => ExprView::Call(
            Box::new(probed_expr(*callee)),
            probed_args(args),
        ),
        ExprView::Fn(name, blocks) => ExprView::Fn(name, probed_blocks(blocks)),
        ExprView::Arrow(blocks) => ExprView::Arrow(probed_blocks(blocks)),
        ExprView::Other(blocks) => ExprView::Other(probed_blocks(blocks)),
    }
}

/// The arguments of a call with the probe in front of each of their blocks.
pub open spec fn probed_args(args: Seq<ExprOrSpreadView>) -> Seq<ExprOrSpreadView>
    decreases args,
{
    Seq::new(
        args.len(),
        |i: int|
            if 0 <= i < args.len() {
                ExprOrSpreadView {
                    spread: args[i].spread,
                    expr: Box::new(probed_expr(*args[i].expr)),
                }
            } else {
                arbitrary()
            },
    )
}

/// The declarators with the probe in front of each block of their
/// initialisers.
pub open spec fn probed_declarators(ds: Seq<VarDeclaratorView>) -> Seq<VarDeclaratorView>
    decreases ds,
{
    Seq::new(
        ds.len(),
        |i: int|
            if 0 <= i < ds.len() {
                VarDeclaratorView {
                    name: ds[i].name,
                    init: match ds[i].init {
                        Some(e) => Some(Box::new(probed_expr(*e))),
                        None => None,
                    },
                }
            } else {
                arbitrary()
            },
    )
}

/// A declaration with the probe in front of each of its blocks.
pub open spec fn probed_decl(d: DeclView) -> DeclView
    decreases d,
{
    match d {
        DeclView::Class(name, blocks) => DeclView::Class(name, probed_blocks(blocks)),
        DeclView::Fn(name, blocks) => DeclView::Fn(name, probed_blocks(blocks)),
        DeclView::Var(kind, ds) => DeclView::Var(kind, probed_declarators(ds)),
    }
}

/// A statement with the probe in front of each of its blocks.
pub open spec fn probed_stmt(s: StmtView) -> StmtView
    decreases s,
{
    match s {
        StmtView::Expr(e) => StmtView::Expr(probed_expr(e)),
        StmtView::Decl(d) => StmtView::Decl(probed_decl(d)),
        StmtView::Other(blocks) => StmtView::Other(probed_blocks(blocks)),
    }
}

/// The statements with the probe in front of each of their blocks.
pub open spec fn probed_stmts(stmts: Seq<StmtView>) -> Seq<StmtView>
    decreases stmts,
{
    Seq::new(
        stmts.len(),
        |i: int|
            if 0 <= i < stmts.len() {
                probed_stmt(stmts[i])
            } else {
                arbitrary()
            },
    )
}

/// The block with the probe as its first statement, and with the blocks
/// inside its statements probed in the same way.
pub open spec fn probed_block(b: BlockView) -> BlockView
    decreases b,
{
    BlockView { stmts: seq![probe_stmt()] + probed_stmts(b.stmts) }
}

/// The blocks, each with the probe as its first statement.
pub open spec fn probed_blocks(blocks: Seq<BlockView>) -> Seq<BlockView>
    decreases blocks,
{
    Seq::new(
        blocks.len(),
        |i: int|
            if 0 <= i < blocks.len() {
                probed_block(blocks[i])
            } else {
                arbitrary()
            },
    )
}

/// The blocks of a top-level item, in the order in which the walk analyzes
/// them.
pub open spec fn item_blocks(item: ModuleItemView) -> Seq<BlockView> {
    match item {
        ModuleItemView::Stmt(s) => stmt_blocks(s),
        ModuleItemView::ModuleDecl(ModuleDeclView::ExportDecl(d)) => decl_blocks(d),
        ModuleItemView::ModuleDecl(
            ModuleDeclView::ExportDefaultDecl(DefaultDeclView::Fn(_, blocks)),
        ) => blocks_blocks(blocks),
        _ => Seq::empty(),
    }
}

/// A top-level item with the probe in front of each of its blocks.
pub open spec fn probed_item(item: ModuleItemView) -> ModuleItemView {
    match item {
        ModuleItemView::Stmt(s) => ModuleItemView::Stmt(probed_stmt(s)),
        ModuleItemView::ModuleDecl(ModuleDeclView::ExportDecl(d)) => ModuleItemView::ModuleDecl(
            ModuleDeclView::ExportDecl(probed_decl(d)),
        ),
        ModuleItemView::ModuleDecl(
            ModuleDeclView::ExportDefaultDecl(DefaultDeclView::Fn(name, blocks)),
        ) => ModuleItemView::ModuleDecl(
            ModuleDeclView::ExportDefaultDecl(DefaultDeclView::Fn(name, probed_blocks(blocks))),
        ),
        _ => item,
    }
}

/// The hook calls of one kind that the blocks make in their direct
/// statements, all blocks together.
pub open spec fn total_calls(blocks: Seq<BlockView>, kind: HookKind) -> nat
    decreases blocks.len(),
{
    if blocks.len() == 0 {
        0
    } else {
        total_calls(blocks.drop_last(), kind) + direct_calls(blocks.last().stmts, kind)
    }
}

/// What the analyzer finds in a top-level item, starting from nothing.
pub open spec fn findings(item: ModuleItemView) -> ReactRefreshRuntimeComponent {
    (ReactRefreshRuntimeComponent {
        is_empty: false,
        builtin_hook_count: 0,
        custom_hook_count: 0,
    }).after(item_blocks(item))
}

impl ReactRefreshRuntimeComponent {
    /// The findings after the blocks have been analyzed one after another.
    pub open spec fn after(self, blocks: Seq<BlockView>) -> Self
        decreases blocks.len(),
    {
        if blocks.len() == 0 {
            self
        } else {
            self.after(blocks.drop_last()).after_block(blocks.last())
        }
    }
}

/// Analyzing `a + b` is analyzing `a`, then `b`.
pub proof fn lemma_after_concat(
    c: ReactRefreshRuntimeComponent,
    a: Seq<BlockView>,
    b: Seq<BlockView>,
)
    ensures
        c.after(a + b) == c.after(a).after(b),
    decreases b.len(),
{
    if b.len() == 0 {
        assert(a + b =~= a);
    } else {
        assert((a + b).drop_last() =~= a + b.drop_last());
        assert((a + b).last() == b.last());
        lemma_after_concat(c, a, b.drop_last());
    }
}

/// What the analyzer has found after some blocks: the calls of all of them
/// are counted, and the last of them decides `is_empty`.
pub proof fn lemma_after(c: ReactRefreshRuntimeComponent, blocks: Seq<BlockView>, kind: HookKind)
    ensures
        c.after(blocks).count(kind) == counted(c.count(kind), total_calls(blocks, kind)),
        c.after(blocks).is_empty == if blocks.len() == 0 {
            c.is_empty
        } else {
            blocks.last().stmts.len() == 0
        },
    decreases blocks.len(),
{
    if blocks.len() > 0 {
        lemma_after(c, blocks.drop_last(), kind);
    }
}

/// Analyzing one more block.
pub proof fn lemma_after_push(c: ReactRefreshRuntimeComponent, a: Seq<BlockView>, b: BlockView)
    ensures
        c.after(a.push(b)) == c.after(a).after_block(b),
{
    assert(a.push(b).drop_last() =~= a);
}

/// The probes change no hook call: a probed expression calls the hook that
/// the expression called.
pub proof fn lemma_probed_expr_calls(e: ExprView, kind: HookKind)
    ensures
        expr_calls(probed_expr(e), kind) == expr_calls(e, kind),
{
    match e {
        ExprView::Call(callee, args) => {
            assert(probed_expr(e) == ExprView::Call(
                Box::new(probed_expr(*callee)),
                probed_args(args),
            ));
            match *callee {
                ExprView::Ident(_) => {},
                _ => {},
            }
        },
        _ => {},
    }
}

/// Probed declarators are initialised by the hooks that initialised them.
pub proof fn lemma_probed_declarators_calls(ds: Seq<VarDeclaratorView>, kind: HookKind)
    ensures
        declarators_calls(probed_declarators(ds), kind) == declarators_calls(ds, kind),
    decreases ds.len(),
{
    if ds.len() > 0 {
        assert(probed_declarators(ds).drop_last() =~= probed_declarators(ds.drop_last()));
        lemma_probed_declarators_calls(ds.drop_last(), kind);
        match ds.last().init {
            Some(e) => {
                lemma_probed_expr_calls(*e, kind);
            },
            None => {},
        }
    }
}

/// A probed statement makes the hook calls that the statement made.
pub proof fn lemma_probed_stmt_calls(s: StmtView, kind: HookKind)
    ensures
        stmt_calls(probed_stmt(s), kind) == stmt_calls(s, kind),
{
    match s {
        StmtView::Expr(e) => {
            lemma_probed_expr_calls(e, kind);
        },
        StmtView::Decl(DeclView::Var(_, ds)) => {
            lemma_probed_declarators_calls(ds, kind);
        },
        _ => {},
    }
}

/// The direct statements of a block call the same hooks before and after the
/// blocks nested in them are probed.
pub proof fn lemma_probed_direct_calls(stmts: Seq<StmtView>, kind: HookKind)
    ensures
        direct_calls(probed_stmts(stmts), kind) == direct_calls(stmts, kind),
    decreases stmts.len(),
{
    if stmts.len() > 0 {
        assert(probed_stmts(stmts).drop_last() =~= probed_stmts(stmts.drop_last()));
        lemma_probed_direct_calls(stmts.drop_last(), kind);
        lemma_probed_stmt_calls(stmts.last(), kind);
    }
}

/// A copy of a name that may be missing.
fn clone_opt_ident(name: &Option<Ident>) -> (r: Option<Ident>)
    ensures
        opt_ident_view(r) == opt_ident_view(*name),
{
    match name {
        Some(i) => Some(ident_str(&i.sym, i.span)),
        None => None,
    }
}

/// A copy of a pattern.
fn clone_pat(p: &Pat) -> (r: Pat)
    ensures
        r@ == p@,
{
    match p {
        Pat::Ident(i) => Pat::Ident(ident_str(&i.sym, i.span)),
        Pat::Other => Pat::Other,
    }
}

impl ReactRefreshRuntimeComponent {
    /// Walks an expression: returns it with every block probed, and has
    /// analyzed every block of it.
    pub fn walk_expr(&mut self, e: &Expr) -> (r: Expr)
        ensures
            r@ == probed_expr(e@),
            *final(self) == old(self).after(expr_blocks(e@)),
        decreases e,
    {
        match e {
            Expr::Ident(i) => Expr::Ident(ident_str(&i.sym, i.span)),
            Expr::Str(s) => Expr::Str(s.clone()),
            Expr::Bool(b) => Expr::Bool(*b),
            Expr::Member(obj, prop) => {
                let obj = self.walk_expr(obj);
                Expr::Member(Box::new(obj), ident_str(&prop.sym, prop.span))
            },
            Expr::Assign(left, right) => {
                let left2 = self.walk_expr(left);
                let right2 = self.walk_expr(right);
                proof {
                    lemma_after_concat(*old(self), expr_blocks(left@), expr_blocks(right@));
                }
                Expr::Assign(Box::new(left2), Box::new(right2))
            },
            Expr::Call(callee, args) => {
                let callee2 = self.walk_expr(callee);
                let args2 = self.walk_args(args);
                proof {
                    lemma_after_concat(
                        *old(self),
                        expr_blocks(callee@),
                        args_blocks(args_view(*args)),
                    );
                }
                Expr::Call(Box::new(callee2), args2)
            },
            Expr::Fn(name, blocks) => {
                let blocks2 = self.walk_blocks(blocks);
                Expr::Fn(clone_opt_ident(name), blocks2)
            },
            Expr::Arrow(blocks) => {
                let blocks2 = self.walk_blocks(blocks);
                Expr::Arrow(blocks2)
            },
            Expr::Other(blocks) => {
                let blocks2 = self.walk_blocks(blocks);
                Expr::Other(blocks2)
            },
        }
    }

    /// Walks the arguments of a call, first to last.
    pub fn walk_args(&mut self, args: &Vec<ExprOrSpread>) -> (r: Vec<ExprOrSpread>)
        ensures
            args_view(r) == probed_args(args_view(*args)),
            *final(self) == old(self).after(args_blocks(args_view(*args))),
        decreases args,
    {
        let ghost av = args_view(*args);
        let mut out: Vec<ExprOrSpread> = Vec::new();
        let mut i: usize = 0;
        while i < args.len()
            invariant
                i <= args.len(),
                av == args_view(*args),
                out.len() == i,
                forall|j: int| 0 <= j < i ==> out[j]@ == probed_args(av)[j],
                *self == old(self).after(args_blocks(av.take(i as int))),
            decreases args.len() - i,
        {
            proof {
                assert(av.take(i + 1).drop_last() =~= av.take(i as int));
                assert(av.take(i + 1).last() == av[i as int]);
                lemma_after_concat(
                    *old(self),
                    args_blocks(av.take(i as int)),
                    expr_blocks(*av[i as int].expr),
                );
            }
            let expr = self.walk_expr(&args[i].expr);
            out.push(ExprOrSpread { spread: args[i].spread, expr: Box::new(expr) });
            i += 1;
        }
        assert(av.take(i as int) =~= av);
        assert(args_view(out) =~= probed_args(av));
        out
    }

    /// Walks the initialisers of a variable declaration, first to last.
    pub fn walk_declarators(&mut self, decls: &Vec<VarDeclarator>) -> (r: Vec<VarDeclarator>)
        ensures
            declarators_view(r) == probed_declarators(declarators_view(*decls)),
            *final(self) == old(self).after(declarators_blocks(declarators_view(*decls))),
        decreases decls,
    {
        let ghost dv = declarators_view(*decls);
        let mut out: Vec<VarDeclarator> = Vec::new();
        let mut i: usize = 0;
        while i < decls.len()
            invariant
                i <= decls.len(),
                dv == declarators_view(*decls),
                out.len() == i,
                forall|j: int| 0 <= j < i ==> out[j]@ == probed_declarators(dv)[j],
                *self == old(self).after(declarators_blocks(dv.take(i as int))),
            decreases decls.len() - i,
        {
            proof {
                assert(dv.take(i + 1).drop_last() =~= dv.take(i as int));
                assert(dv.take(i + 1).last() == dv[i as int]);
            }
            let init = match &decls[i].init {
                Some(e) => {
                    let e2 = self.walk_expr(e);
                    proof {
                        lemma_after_concat(
                            *old(self),
                            declarators_blocks(dv.take(i as int)),
                            expr_blocks(e@),
                        );
                    }
                    Some(Box::new(e2))
                },
                None => {
                    assert(declarators_blocks(dv.take(i as int)) + Seq::<BlockView>::empty()
                        =~= declarators_blocks(dv.take(i as int)));
                    None
                },
            };
            out.push(VarDeclarator { name: clone_pat(&decls[i].name), init });
            i += 1;
        }
        assert(dv.take(i as int) =~= dv);
        assert(declarators_view(out) =~= probed_declarators(dv));
        out
    }

    /// Walks a declaration.
    pub fn walk_decl(&mut self, d: &Decl) -> (r: Decl)
        ensures
            r@ == probed_decl(d@),
            *final(self) == old(self).after(decl_blocks(d@)),
        decreases d,
    {
        match d {
            Decl::Class(name, blocks) => {
                let blocks2 = self.walk_blocks(blocks);
                Decl::Class(ident_str(&name.sym, name.span), blocks2)
            },
            Decl::Fn(name, blocks) => {
                let blocks2 = self.walk_blocks(blocks);
                Decl::Fn(ident_str(&name.sym, name.span), blocks2)
            },
            Decl::Var(kind, decls) => {
                let decls2 = self.walk_declarators(decls);
                Decl::Var(*kind, decls2)
            },
        }
    }

    /// Walks a statement.
    pub fn walk_stmt(&mut self, s: &Stmt) -> (r: Stmt)
        ensures
            r@ == probed_stmt(s@),
            *final(self) == old(self).after(stmt_blocks(s@)),
        decreases s,
    {
        match s {
            Stmt::Expr(e) => Stmt::Expr(self.walk_expr(e)),
            Stmt::Decl(d) => Stmt::Decl(self.walk_decl(d)),
            Stmt::Other(blocks) => {
                let blocks2 = self.walk_blocks(blocks);
                Stmt::Other(blocks2)
            },
        }
    }

    /// Walks the statements of a block, first to last.
    pub fn walk_stmts(&mut self, stmts: &Vec<Stmt>) -> (r: Vec<Stmt>)
        ensures
            stmts_view(r) == probed_stmts(stmts_view(*stmts)),
            *final(self) == old(self).after(stmts_blocks(stmts_view(*stmts))),
        decreases stmts,
    {
        let ghost sv = stmts_view(*stmts);
        let mut out: Vec<Stmt> = Vec::new();
        let mut i: usize = 0;
        while i < stmts.len()
            invariant
                i <= stmts.len(),
                sv == stmts_view(*stmts),
                out.len() == i,
                forall|j: int| 0 <= j < i ==> out[j]@ == probed_stmts(sv)[j],
                *self == old(self).after(stmts_blocks(sv.take(i as int))),
            decreases stmts.len() - i,
        {
            proof {
                assert(sv.take(i + 1).drop_last() =~= sv.take(i as int));
                assert(sv.take(i + 1).last() == sv[i as int]);
                lemma_after_concat(
                    *old(self),
                    stmts_blocks(sv.take(i as int)),
                    stmt_blocks(sv[i as int]),
                );
            }
            let s2 = self.walk_stmt(&stmts[i]);
            out.push(s2);
            i += 1;
        }
        assert(sv.take(i as int) =~= sv);
        assert(stmts_view(out) =~= probed_stmts(sv));
        out
    }

    /// Walks a block: the blocks inside its statements first, then the block
    /// itself goes to the analyzer.
    pub fn walk_block(&mut self, b: &Block) -> (r: Block)
        ensures
            r@ == probed_block(b@),
            *final(self) == old(self).after(block_blocks(b@)),
        decreases b,
    {
        let stmts = self.walk_stmts(&b.stmts);
        let inner = Block { stmts };
        proof {
            lemma_probed_direct_calls(b@.stmts, HookKind::Builtin);
            lemma_probed_direct_calls(b@.stmts, HookKind::Custom);
            lemma_after_push(*old(self), stmts_blocks(b@.stmts), b@);
        }
        self.fold_block_stmt(inner)
    }

    /// Walks a list of blocks, first to last.
    pub fn walk_blocks(&mut self, blocks: &Vec<Block>) -> (r: Vec<Block>)
        ensures
            blocks_view(r) == probed_blocks(blocks_view(*blocks)),
            *final(self) == old(self).after(blocks_blocks(blocks_view(*blocks))),
        decreases blocks,
    {
        let ghost bv = blocks_view(*blocks);
        let mut out: Vec<Block> = Vec::new();
        let mut i: usize = 0;
        while i < blocks.len()
            invariant
                i <= blocks.len(),
                bv == blocks_view(*blocks),
                out.len() == i,
                forall|j: int| 0 <= j < i ==> out[j]@ == probed_blocks(bv)[j],
                *self == old(self).after(blocks_blocks(bv.take(i as int))),
            decreases blocks.len() - i,
        {
            proof {
                assert(bv.take(i + 1).drop_last() =~= bv.take(i as int));
                assert(bv.take(i + 1).last() == bv[i as int]);
                lemma_after_concat(
                    *old(self),
                    blocks_blocks(bv.take(i as int)),
                    block_blocks(bv[i as int]),
                );
            }
            let b2 = self.walk_block(&blocks[i]);
            out.push(b2);
            i += 1;
        }
        assert(bv.take(i as int) =~= bv);
        assert(blocks_view(out) =~= probed_blocks(bv));
        out
    }

    /// Walks a top-level item.
    pub fn walk_module_item(&mut self, item: &ModuleItem) -> (r: ModuleItem)
        ensures
            r@ == probed_item(item@),
            *final(self) == old(self).after(item_blocks(item@)),
    {
        match item {
            ModuleItem::Stmt(s) => ModuleItem::Stmt(self.walk_stmt(s)),
            ModuleItem::ModuleDecl(ModuleDecl::ExportDecl(d)) => ModuleItem::ModuleDecl(
                ModuleDecl::ExportDecl(self.walk_decl(d)),
            ),
            ModuleItem::ModuleDecl(
                ModuleDecl::ExportDefaultDecl(DefaultDecl::Fn(name, blocks)),
            ) => {
                let blocks2 = self.walk_blocks(blocks);
                ModuleItem::ModuleDecl(
                    ModuleDecl::ExportDefaultDecl(DefaultDecl::Fn(clone_opt_ident(name), blocks2)),
                )
            },
            ModuleItem::ModuleDecl(ModuleDecl::ExportDefaultDecl(DefaultDecl::Other)) => {
                ModuleItem::ModuleDecl(ModuleDecl::ExportDefaultDecl(DefaultDecl::Other))
            },
            ModuleItem::ModuleDecl(ModuleDecl::Import(specifiers)) => {
                ModuleItem::ModuleDecl(ModuleDecl::Import(clone_specifiers(specifiers)))
            },
            ModuleItem::ModuleDecl(ModuleDecl::Other) => ModuleItem::ModuleDecl(ModuleDecl::Other),
        }
    }
}

/// A copy of the specifiers of an import.
fn clone_specifiers(specifiers: &Vec<ImportSpecifier>) -> (r: Vec<ImportSpecifier>)
    ensures
        specifiers_view(r) == specifiers_view(*specifiers),
{
    let mut out: Vec<ImportSpecifier> = Vec::new();
    let mut i: usize = 0;
    while i < specifiers.len()
        invariant
            i <= specifiers.len(),
            out.len() == i,
            forall|j: int| 0 <= j < i ==> out[j]@ == specifiers[j]@,
        decreases specifiers.len() - i,
    {
        let copy = match &specifiers[i] {
            ImportSpecifier::Named(local) => ImportSpecifier::Named(
                ident_str(&local.sym, local.span),
            ),
            ImportSpecifier::Default(local) => ImportSpecifier::Default(
                ident_str(&local.sym, local.span),
            ),
            ImportSpecifier::Namespace(local) => ImportSpecifier::Namespace(
                ident_str(&local.sym, local.span),
            ),
        };
        out.push(copy);
        i += 1;
    }
    assert(specifiers_view(out) =~= specifiers_view(*specifiers));
    out
}

} // verus!
