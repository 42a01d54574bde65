//! The fragment of JavaScript syntax that the instrumentation reads and writes.
//!
//! Calls, member accesses, assignments, names and literals are spelled out,
//! because hook calls are recognised by them and the generated statements are
//! made of them. Everything else is kept as an `Other` node that lists the
//! statement blocks lying inside it, in source order and not inside one
//! another, so that a walk of the tree reaches every block.
//!
//! Each type has a view in which strings are `Seq<char>` and vectors are
//! `Seq`; the contracts of the crate are stated over these views.
use vstd::prelude::*;

verus! {

/// Where a name is written: a range of the source text and the scope that
/// the name belongs to. Generated syntax has the range `0..0` and no scope.
#[derive(Clone, Copy, Debug, PartialEq, Eq, Structural)]
pub struct Span {
    pub lo: u32,
    pub hi: u32,
    /// The syntax context of the name, by its number; 0 for none.
    pub ctxt: u32,
}

impl Span {
    /// The span of syntax that has no place in the source text.
    pub open spec fn spec_dummy() -> Span {
        Span { lo: 0, hi: 0, ctxt: 0 }
    }

    /// The span of syntax that has no place in the source text.
    #[verifier::when_used_as_spec(spec_dummy)]
    pub fn dummy() -> (r: Span)
        ensures
            r == Span::spec_dummy(),
    {
        Span { lo: 0, hi: 0, ctxt: 0 }
    }
}

/// A name together with the place where it is written.
#[derive(Debug, PartialEq, Eq)]
pub struct Ident {
    pub sym: String,
    pub span: Span,
}

/// The view of an [`Ident`].
pub struct IdentView {
    pub sym: Seq<char>,
    pub span: Span,
}

impl View for Ident {
    type V = IdentView;

    open spec fn view(&self) -> IdentView {
        IdentView { sym: self.sym@, span: self.span }
    }
}

/// The keyword of a variable declaration.
#[derive(Clone, Copy, Debug, PartialEq, Eq, Structural)]
pub enum VarDeclKind {
    Var,
    Let,
    Const,
}

/// What a declarator binds: a plain name, or a pattern whose parts are not
/// modelled.
#[derive(Debug, PartialEq, Eq)]
pub enum Pat {
    Ident(Ident),
    Other,
}

/// The view of a [`Pat`].
pub enum PatView {
    Ident(IdentView),
    Other,
}

impl View for Pat {
    type V = PatView;

    open spec fn view(&self) -> PatView {
        match self {
            Pat::Ident(i) => PatView::Ident(i@),
            Pat::Other => PatView::Other,
        }
    }
}

/// An expression.
#[derive(Debug, PartialEq, Eq)]
pub enum Expr {
    /// `name`
    Ident(Ident),
    /// `"text"`
    Str(String),
    /// `true`, `false`
    Bool(bool),
    /// `obj.prop`
    Member(Box<Expr>, Ident),
    /// `left = right`
    Assign(Box<Expr>, Box<Expr>),
    /// `callee(args)`
    Call(Box<Expr>, Vec<ExprOrSpread>),
    /// `function name() { .. }`: its name, if it has one, and its blocks
    /// (the body last).
    Fn(Option<Ident>, Vec<Block>),
    /// `() => ..`: its blocks (a block body last).
    Arrow(Vec<Block>),
    /// Any other expression, with the blocks inside it.
    Other(Vec<Block>),
}

/// An argument of a call; `spread` is the place of `...` where it is written.
#[derive(Debug, PartialEq, Eq)]
pub struct ExprOrSpread {
    pub spread: Option<Span>,
    pub expr: Box<Expr>,
}

/// One `name = init` of a variable declaration.
#[derive(Debug, PartialEq, Eq)]
pub struct VarDeclarator {
    pub name: Pat,
    pub init: Option<Box<Expr>>,
}

/// A declaration.
#[derive(Debug, PartialEq, Eq)]
pub enum Decl {
    /// `class Name { .. }`, with the blocks inside it.
    Class(Ident, Vec<Block>),
    /// `function name() { .. }`, with its blocks (the body last).
    Fn(Ident, Vec<Block>),
    /// `var a = .., b = ..;`
    Var(VarDeclKind, Vec<VarDeclarator>),
}

/// A statement.
#[derive(Debug, PartialEq, Eq)]
pub enum Stmt {
    /// `expr;`
    Expr(Expr),
    Decl(Decl),
    /// Any other statement, with the blocks inside it.
    Other(Vec<Block>),
}

/// `{ stmts }`
#[derive(Debug, PartialEq, Eq)]
pub struct Block {
    pub stmts: Vec<Stmt>,
}

/// The view of an [`Expr`].
pub enum ExprView {
    Ident(IdentView),
    Str(Seq<char>),
    Bool(bool),
    Member(Box<ExprView>, IdentView),
    Assign(Box<ExprView>, Box<ExprView>),
    Call(Box<ExprView>, Seq<ExprOrSpreadView>),
    Fn(Option<IdentView>, Seq<BlockView>),
    Arrow(Seq<BlockView>),
    Other(Seq<BlockView>),
}

/// The view of an [`ExprOrSpread`].
pub struct ExprOrSpreadView {
    pub spread: Option<Span>,
    pub expr: Box<ExprView>,
}

/// The view of a [`VarDeclarator`].
pub struct VarDeclaratorView {
    pub name: PatView,
    pub init: Option<Box<ExprView>>,
}

/// The view of a [`Decl`].
pub enum DeclView {
    Class(IdentView, Seq<BlockView>),
    Fn(IdentView, Seq<BlockView>),
    Var(VarDeclKind, Seq<VarDeclaratorView>),
}

/// The view of a [`Stmt`].
pub enum StmtView {
    Expr(ExprView),
    Decl(DeclView),
    Other(Seq<BlockView>),
}

/// The view of a [`Block`].
pub struct BlockView {
    pub stmts: Seq<StmtView>,
}

/// The view of a name that may be missing.
pub open spec fn opt_ident_view(i: Option<Ident>) -> Option<IdentView> {
    match i {
        Some(i) => Some(i@),
        None => None,
    }
}

/// The view of an expression.
pub open spec fn expr_view(e: Expr) -> ExprView
    decreases e,
{
    match e {
        Expr::Ident(i) => ExprView::Ident(i@),
        Expr::Str(s) => ExprView::Str(s@),
        Expr::Bool(b) => ExprView::Bool(b),
        Expr::Member(obj, prop) => ExprView::Member(Box::new(expr_view(*obj)), prop@),
        Expr::Assign(left, right) => ExprView::Assign(
            Box::new(expr_view(*left)),
            Box::new(expr_view(*right)),
        ),
        Expr::Call(callee, args) => ExprView::Call(Box::new(expr_view(*callee)), args_view(args)),
        Expr::Fn(name, blocks) => ExprView::Fn(opt_ident_view(name), blocks_view(blocks)),
        Expr::Arrow(blocks) => ExprView::Arrow(blocks_view(blocks)),
        Expr::Other(blocks) => ExprView::Other(blocks_view(blocks)),
    }
}

/// The view of an argument.
pub open spec fn arg_view(a: ExprOrSpread) -> ExprOrSpreadView
    decreases a,
{
    ExprOrSpreadView { spread: a.spread, expr: Box::new(expr_view(*a.expr)) }
}

/// The views of the arguments of a call, in their order.
pub open spec fn args_view(v: Vec<ExprOrSpread>) -> Seq<ExprOrSpreadView>
    decreases v,
{
    Seq::new(
        v.len() as nat,
        |i: int|
            if 0 <= i < v.len() {
                arg_view(v[i])
            } else {
                arbitrary()
            },
    )
}

/// The view of a declarator.
pub open spec fn declarator_view(d: VarDeclarator) -> VarDeclaratorView
    decreases d,
{
    VarDeclaratorView {
        name: d.name@,
        init: match d.init {
            Some(e) => Some(Box::new(expr_view(*e))),
            None => None,
        },
    }
}

/// The views of the declarators of a declaration, in their order.
pub open spec fn declarators_view(v: Vec<VarDeclarator>) -> Seq<VarDeclaratorView>
    decreases v,
{
    Seq::new(
        v.len() as nat,
        |i: int|
            if 0 <= i < v.len() {
                declarator_view(v[i])
            } else {
                arbitrary()
            },
    )
}

/// The view of a declaration.
pub open spec fn decl_view(d: Decl) -> DeclView
    decreases d,
{
    match d {
        Decl::Class(name, blocks) => DeclView::Class(name@, blocks_view(blocks)),
        Decl::Fn(name, blocks) => DeclView::Fn(name@, blocks_view(blocks)),
        Decl::Var(kind, decls) => DeclView::Var(kind, declarators_view(decls)),
    }
}

/// The view of a statement.
pub open spec fn stmt_view(s: Stmt) -> StmtView
    decreases s,
{
    match s {
        Stmt::Expr(e) => StmtView::Expr(expr_view(e)),
        Stmt::Decl(d) => StmtView::Decl(decl_view(d)),
        Stmt::Other(blocks) => StmtView::Other(blocks_view(blocks)),
    }
}

/// The views of the statements of a block, in their order.
pub open spec fn stmts_view(v: Vec<Stmt>) -> Seq<StmtView>
    decreases v,
{
    Seq::new(
        v.len() as nat,
        |i: int|
            if 0 <= i < v.len() {
                stmt_view(v[i])
            } else {
                arbitrary()
            },
    )
}

/// The view of a block.
pub open spec fn block_view(b: Block) -> BlockView
    decreases b,
{
    BlockView { stmts: stmts_view(b.stmts) }
}

/// The views of a list of blocks, in their order.
pub open spec fn blocks_view(v: Vec<Block>) -> Seq<BlockView>
    decreases v,
{
    Seq::new(
        v.len() as nat,
        |i: int|
            if 0 <= i < v.len() {
                block_view(v[i])
            } else {
                arbitrary()
            },
    )
}

impl View for Expr {
    type V = ExprView;

    open spec fn view(&self) -> ExprView {
        expr_view(*self)
    }
}

impl View for ExprOrSpread {
    type V = ExprOrSpreadView;

    open spec fn view(&self) -> ExprOrSpreadView {
        arg_view(*self)
    }
}

impl View for VarDeclarator {
    type V = VarDeclaratorView;

    open spec fn view(&self) -> VarDeclaratorView {
        declarator_view(*self)
    }
}

impl View for Decl {
    type V = DeclView;

    open spec fn view(&self) -> DeclView {
        decl_view(*self)
    }
}

impl View for Stmt {
    type V = StmtView;

    open spec fn view(&self) -> StmtView {
        stmt_view(*self)
    }
}

impl View for Block {
    type V = BlockView;

    open spec fn view(&self) -> BlockView {
        block_view(*self)
    }
}

/// One binding of an `import` declaration, by its local name.
#[derive(Debug, PartialEq, Eq)]
pub enum ImportSpecifier {
    /// `import { local } from ".."`
    Named(Ident),
    /// `import local from ".."`
    Default(Ident),
    /// `import * as local from ".."`
    Namespace(Ident),
}

/// The view of an [`ImportSpecifier`].
pub enum ImportSpecifierView {
    Named(IdentView),
    Default(IdentView),
    Namespace(IdentView),
}

impl View for ImportSpecifier {
    type V = ImportSpecifierView;

    open spec fn view(&self) -> ImportSpecifierView {
        match self {
            ImportSpecifier::Named(i) => ImportSpecifierView::Named(i@),
            ImportSpecifier::Default(i) => ImportSpecifierView::Default(i@),
            ImportSpecifier::Namespace(i) => ImportSpecifierView::Namespace(i@),
        }
    }
}

/// The views of the specifiers of an import, in their order.
pub open spec fn specifiers_view(v: Vec<ImportSpecifier>) -> Seq<ImportSpecifierView> {
    Seq::new(v.len() as nat, |i: int| v[i]@)
}

/// What `export default` is followed by.
#[derive(Debug, PartialEq, Eq)]
pub enum DefaultDecl {
    /// `export default function name() { .. }`: the name, if there is one,
    /// and the blocks of the function (the body last).
    Fn(Option<Ident>, Vec<Block>),
    /// A class or another declaration.
    Other,
}

/// The view of a [`DefaultDecl`].
pub enum DefaultDeclView {
    Fn(Option<IdentView>, Seq<BlockView>),
    Other,
}

impl View for DefaultDecl {
    type V = DefaultDeclView;

    open spec fn view(&self) -> DefaultDeclView {
        match self {
            DefaultDecl::Fn(name, blocks) => DefaultDeclView::Fn(
                opt_ident_view(*name),
                blocks_view(*blocks),
            ),
            DefaultDecl::Other => DefaultDeclView::Other,
        }
    }
}

/// An `import` or `export` at the top of a module.
#[derive(Debug, PartialEq, Eq)]
pub enum ModuleDecl {
    /// `import .. from ".."`
    Import(Vec<ImportSpecifier>),
    /// `export <declaration>`
    ExportDecl(Decl),
    /// `export default <declaration>`
    ExportDefaultDecl(DefaultDecl),
    /// `export default <expression>`, `export { .. }`, `export * from ".."`
    /// and the like.
    Other,
}

/// The view of a [`ModuleDecl`].
pub enum ModuleDeclView {
    Import(Seq<ImportSpecifierView>),
    ExportDecl(DeclView),
    ExportDefaultDecl(DefaultDeclView),
    Other,
}

impl View for ModuleDecl {
    type V = ModuleDeclView;

    open spec fn view(&self) -> ModuleDeclView {
        match self {
            ModuleDecl::Import(specifiers) => ModuleDeclView::Import(specifiers_view(*specifiers)),
            ModuleDecl::ExportDecl(d) => ModuleDeclView::ExportDecl(d@),
            ModuleDecl::ExportDefaultDecl(d) => ModuleDeclView::ExportDefaultDecl(d@),
            ModuleDecl::Other => ModuleDeclView::Other,
        }
    }
}

/// One top-level item of a module.
#[derive(Debug, PartialEq, Eq)]
pub enum ModuleItem {
    ModuleDecl(ModuleDecl),
    Stmt(Stmt),
}

/// The view of a [`ModuleItem`].
pub enum ModuleItemView {
    ModuleDecl(ModuleDeclView),
    Stmt(StmtView),
}

impl View for ModuleItem {
    type V = ModuleItemView;

    open spec fn view(&self) -> ModuleItemView {
        match self {
            ModuleItem::ModuleDecl(d) => ModuleItemView::ModuleDecl(d@),
            ModuleItem::Stmt(s) => ModuleItemView::Stmt(s@),
        }
    }
}

/// The views of the items of a module, in their order.
pub open spec fn items_view(v: Vec<ModuleItem>) -> Seq<ModuleItemView> {
    Seq::new(v.len() as nat, |i: int| v[i]@)
}

/// A module: its items in source order.
#[derive(Debug, PartialEq, Eq)]
pub struct Module {
    pub body: Vec<ModuleItem>,
}

/// The view of a [`Module`].
pub struct ModuleView {
    pub body: Seq<ModuleItemView>,
}

impl View for Module {
    type V = ModuleView;

    open spec fn view(&self) -> ModuleView {
        ModuleView { body: items_view(self.body) }
    }
}

} // verus!
