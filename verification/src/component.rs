//! The hook usage analyzer: which hooks the direct statements of a block
//! call, and the signature probe that is put in front of them.
use crate::syntax::{
    args_view, declarators_view, Block, BlockView, Decl, DeclView, Expr, ExprView, IdentView, Span,
    Stmt, StmtView, VarDeclaratorView,
};
use crate::utils::{call_expr, ident_expr, to_stmt};
use vstd::prelude::*;

verus! {

/// The local that holds the signature function of the module.
pub const SIGNATURE_FN: &'static str = "__s";

/// The two sorts of hook that the analyzer tells apart.
#[derive(Clone, Copy, Debug, PartialEq, Eq, Structural)]
pub enum HookKind {
    /// One of React's own hooks.
    Builtin,
    /// Any other function whose name starts with `use`.
    Custom,
}

/// The names of React's own hooks.
pub open spec fn is_builtin_hook(name: Seq<char>) -> bool {
    ||| name == "useState"@
    ||| name == "useReducer"@
    ||| name == "useEffect"@
    ||| name == "useLayoutEffect"@
    ||| name == "useMemo"@
    ||| name == "useCallback"@
    ||| name == "useRef"@
    ||| name == "useContext"@
    ||| name == "useImperativeHandle"@
    ||| name == "useDebugValue"@
}

/// What a call of the function `name` counts as.
pub open spec fn hook_kind(name: Seq<char>) -> Option<HookKind> {
    if is_builtin_hook(name) {
        Some(HookKind::Builtin)
    } else if "use"@.is_prefix_of(name) {
        Some(HookKind::Custom)
    } else {
        None
    }
}

/// The hook that `e` calls: `e` is a call whose callee is a plain name, and
/// the name is that of a hook. `Obj.useX()` calls none.
pub open spec fn called_hook(e: ExprView) -> Option<HookKind> {
    match e {
        ExprView::Call(callee, _) => match *callee {
            ExprView::Ident(name) => hook_kind(name.sym),
            _ => None,
        },
        _ => None,
    }
}

/// 1 if `e` calls a hook of this kind, else 0.
pub open spec fn expr_calls(e: ExprView, kind: HookKind) -> nat {
    if called_hook(e) == Some(kind) {
        1
    } else {
        0
    }
}

/// 1 if the declarator is initialised by a call of a hook of this kind.
pub open spec fn declarator_calls(d: VarDeclaratorView, kind: HookKind) -> nat {
    match d.init {
        Some(e) => expr_calls(*e, kind),
        None => 0,
    }
}

/// The declarators among `ds` that a hook of this kind initialises.
pub open spec fn declarators_calls(ds: Seq<VarDeclaratorView>, kind: HookKind) -> nat
    decreases ds.len(),
{
    if ds.len() == 0 {
        0
    } else {
        declarators_calls(ds.drop_last(), kind) + declarator_calls(ds.last(), kind)
    }
}

/// The hook calls of this kind that the statement itself makes: it is a bare
/// call, or a variable declaration with calls as initialisers.
pub open spec fn stmt_calls(s: StmtView, kind: HookKind) -> nat {
    match s {
        StmtView::Expr(e) => expr_calls(e, kind),
        StmtView::Decl(DeclView::Var(_, ds)) => declarators_calls(ds, kind),
        _ => 0,
    }
}

/// The hook calls of this kind among the statements, nested ones left out.
pub open spec fn direct_calls(stmts: Seq<StmtView>, kind: HookKind) -> nat
    decreases stmts.len(),
{
    if stmts.len() == 0 {
        0
    } else {
        direct_calls(stmts.drop_last(), kind) + stmt_calls(stmts.last(), kind)
    }
}

/// `count + more`, as far as a counter can hold it.
pub open spec fn counted(count: u64, more: nat) -> u64 {
    if count + more >= u64::MAX {
        u64::MAX
    } else {
        (count + more) as u64
    }
}

/// The signature probe `__s();`.
pub open spec fn probe_stmt() -> StmtView {
    StmtView::Expr(
        ExprView::Call(
            Box::new(ExprView::Ident(IdentView { sym: SIGNATURE_FN@, span: Span::dummy() })),
            Seq::empty(),
        ),
    )
}

/// Whether two texts are the same.
pub fn same_text(a: &str, b: &str) -> (r: bool)
    ensures
        r == (a@ == b@),
{
    let n = a.unicode_len();
    if n != b.unicode_len() {
        return false;
    }
    let mut i: usize = 0;
    while i < n
        invariant
            n == a@.len(),
            n == b@.len(),
            i <= n,
            forall|j: int| 0 <= j < i ==> a@[j] == b@[j],
        decreases n - i,
    {
        if a.get_char(i) != b.get_char(i) {
            return false;
        }
        i += 1;
    }
    assert(a@ =~= b@);
    true
}

/// Whether `prefix` starts `text`.
pub fn starts_with(text: &str, prefix: &str) -> (r: bool)
    ensures
        r == prefix@.is_prefix_of(text@),
{
    let n = prefix.unicode_len();
    if text.unicode_len() < n {
        return false;
    }
    let mut i: usize = 0;
    while i < n
        invariant
            n == prefix@.len(),
            n <= text@.len(),
            i <= n,
            forall|j: int| 0 <= j < i ==> text@[j] == prefix@[j],
        decreases n - i,
    {
        if text.get_char(i) != prefix.get_char(i) {
            return false;
        }
        i += 1;
    }
    assert(prefix@ =~= text@.subrange(0, n as int));
    true
}

/// Whether `name` is one of React's own hooks.
pub fn is_builtin_hook_name(name: &str) -> (r: bool)
    ensures
        r == is_builtin_hook(name@),
{
    same_text(name, "useState") || same_text(name, "useReducer") || same_text(name, "useEffect")
        || same_text(name, "useLayoutEffect") || same_text(name, "useMemo") || same_text(
        name,
        "useCallback",
    ) || same_text(name, "useRef") || same_text(name, "useContext") || same_text(
        name,
        "useImperativeHandle",
    ) || same_text(name, "useDebugValue")
}

/// Classifies the function `name` as a hook, or as none.
pub fn classify_hook(name: &str) -> (r: Option<HookKind>)
    ensures
        r == hook_kind(name@),
{
    if is_builtin_hook_name(name) {
        Some(HookKind::Builtin)
    } else if starts_with(name, "use") {
        Some(HookKind::Custom)
    } else {
        None
    }
}

/// What the analyzer has found so far in the blocks of one declaration.
#[derive(Clone, Copy, Debug, PartialEq, Eq, Structural)]
pub struct ReactRefreshRuntimeComponent {
    /// Whether the block analyzed last held no statement.
    pub is_empty: bool,
    /// The calls of React's own hooks, up to `u64::MAX`.
    pub builtin_hook_count: u64,
    /// The calls of other hooks, up to `u64::MAX`.
    pub custom_hook_count: u64,
}

impl ReactRefreshRuntimeComponent {
    /// The findings with `builtin` and `custom` more calls counted.
    pub open spec fn plus(self, builtin: nat, custom: nat) -> Self {
        ReactRefreshRuntimeComponent {
            is_empty: self.is_empty,
            builtin_hook_count: counted(self.builtin_hook_count, builtin),
            custom_hook_count: counted(self.custom_hook_count, custom),
        }
    }

    /// The calls of hooks of one kind that were counted.
    pub open spec fn count(self, kind: HookKind) -> u64 {
        match kind {
            HookKind::Builtin => self.builtin_hook_count,
            HookKind::Custom => self.custom_hook_count,
        }
    }

    /// The findings after the block `b` has been analyzed: its direct
    /// statements are counted, and it decides `is_empty`.
    pub open spec fn after_block(self, b: BlockView) -> Self {
        ReactRefreshRuntimeComponent {
            is_empty: b.stmts.len() == 0,
            builtin_hook_count: counted(
                self.builtin_hook_count,
                direct_calls(b.stmts, HookKind::Builtin),
            ),
            custom_hook_count: counted(
                self.custom_hook_count,
                direct_calls(b.stmts, HookKind::Custom),
            ),
        }
    }

    /// Nothing found yet. A declaration without any block keeps
    /// `is_empty == false`.
    pub fn default() -> (r: ReactRefreshRuntimeComponent)
        ensures
            r == (ReactRefreshRuntimeComponent {
                is_empty: false,
                builtin_hook_count: 0,
                custom_hook_count: 0,
            }),
    {
        ReactRefreshRuntimeComponent {
            is_empty: false,
            builtin_hook_count: 0,
            custom_hook_count: 0,
        }
    }

    /// Returns a statement that call the signature function without arguments.
    ///
    /// Code: `__s();`
    pub fn get_signature_call_stmt(&self) -> (r: Stmt)
        ensures
            r@ == probe_stmt(),
    {
        let args = Vec::new();
        assert(args_view(args) =~= Seq::empty());
        to_stmt(call_expr(ident_expr(String::from_str(SIGNATURE_FN)), args))
    }

    /// Counts `call_expr` if it calls a hook by its plain name.
    pub fn count_hook(&mut self, call_expr: &Expr)
        ensures
            *final(self) == old(self).plus(
                expr_calls(call_expr@, HookKind::Builtin),
                expr_calls(call_expr@, HookKind::Custom),
            ),
    {
        if let Expr::Call(callee, _) = call_expr {
            if let Expr::Ident(name) = &**callee {
                assert(callee@ == ExprView::Ident(name@));
                match classify_hook(name.sym.as_str()) {
                    Some(HookKind::Builtin) => {
                        if self.builtin_hook_count < u64::MAX {
                            self.builtin_hook_count += 1;
                        }
                    },
                    Some(HookKind::Custom) => {
                        if self.custom_hook_count < u64::MAX {
                            self.custom_hook_count += 1;
                        }
                    },
                    None => {},
                }
            } else {
                assert(!(callee@ is Ident));
            }
        }
    }

    /// Counts the hook calls that the statement itself makes.
    ///
    /// There are two ways to call a hook:
    ///
    /// - call it only (eg: `useCallback()`);
    /// - call it and assign the value to a variable
    ///   (eg: `const [...] = useState(0)`).
    pub fn find_hook_call_from_stmt(&mut self, stmt: &Stmt)
        ensures
            *final(self) == old(self).plus(
                stmt_calls(stmt@, HookKind::Builtin),
                stmt_calls(stmt@, HookKind::Custom),
            ),
    {
        match stmt {
            Stmt::Expr(e) => {
                self.count_hook(e);
            },
            Stmt::Decl(Decl::Var(_, decls)) => {
                let ghost ds = declarators_view(*decls);
                let mut i: usize = 0;
                while i < decls.len()
                    invariant
                        i <= decls.len(),
                        ds == declarators_view(*decls),
                        *self == old(self).plus(
                            declarators_calls(ds.take(i as int), HookKind::Builtin),
                            declarators_calls(ds.take(i as int), HookKind::Custom),
                        ),
                    decreases decls.len() - i,
                {
                    proof {
                        assert(ds.take(i + 1).drop_last() =~= ds.take(i as int));
                        assert(ds.take(i + 1).last() == decls[i as int]@);
                    }
                    if let Some(init) = &decls[i].init {
                        self.count_hook(init);
                    }
                    i += 1;
                }
                assert(ds.take(i as int) =~= ds);
            },
            _ => {},
        }
    }

    /// Analyzes one block and instruments it: counts the hook calls among its
    /// direct statements, notes whether it was empty, and puts the signature
    /// probe in front of its statements, whether or not a hook was found.
    pub fn fold_block_stmt(&mut self, block_stmt: Block) -> (r: Block)
        ensures
            r@.stmts == seq![probe_stmt()] + block_stmt@.stmts,
            *final(self) == old(self).after_block(block_stmt@),
    {
        let mut block_stmt = block_stmt;
        let ghost stmts = block_stmt@.stmts;
        let is_empty = block_stmt.stmts.len() == 0;
        let mut i: usize = 0;
        while i < block_stmt.stmts.len()
            invariant
                i <= block_stmt.stmts.len(),
                stmts == block_stmt@.stmts,
                *self == old(self).plus(
                    direct_calls(stmts.take(i as int), HookKind::Builtin),
                    direct_calls(stmts.take(i as int), HookKind::Custom),
                ),
            decreases block_stmt.stmts.len() - i,
        {
            proof {
                assert(stmts.take(i + 1).drop_last() =~= stmts.take(i as int));
                assert(stmts.take(i + 1).last() == block_stmt.stmts[i as int]@);
            }
            self.find_hook_call_from_stmt(&block_stmt.stmts[i]);
            i += 1;
        }
        assert(stmts.take(i as int) =~= stmts);
        self.is_empty = is_empty;
        let probe = self.get_signature_call_stmt();
        block_stmt.stmts.insert(0, probe);
        assert(block_stmt@.stmts =~= seq![probe_stmt()] + stmts);
        block_stmt
    }
}

} // verus!
