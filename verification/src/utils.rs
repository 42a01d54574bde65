//! The component-name test, and builders for the pieces of generated code.
use crate::syntax::{
    args_view, declarators_view, Decl, DeclView, Expr, ExprOrSpread, ExprOrSpreadView, ExprView,
    Ident, IdentView, Pat, PatView, Span, Stmt, StmtView, VarDeclKind, VarDeclarator,
    VarDeclaratorView,
};
use vstd::prelude::*;

verus! {

/// Whether `c` has the Unicode property `Uppercase`, as `char::is_uppercase`
/// decides it.
pub uninterp spec fn is_uppercase(c: char) -> bool;

/// `char::is_uppercase`. Believed: the call returns the value that
/// [`is_uppercase`] names for the character handed in.
#[verifier::external_body]
fn char_is_uppercase(c: char) -> (r: bool)
    ensures
        r == is_uppercase(c),
{
    c.is_uppercase()
}

/// A name looks like a component when its first character is uppercase.
/// Nothing else is asked of it: one uppercase letter is enough, and the empty
/// name is none.
pub open spec fn is_component_name(name: Seq<char>) -> bool {
    name.len() > 0 && is_uppercase(name[0])
}

/// Check provided name is valid React component name.
///
/// - `MyComponent`: `true`
/// - `myComponent`: `false`
pub fn is_react_component_name(name: &String) -> (r: bool)
    ensures
        r == is_component_name(name@),
{
    let s = name.as_str();
    if s.is_empty() {
        false
    } else {
        char_is_uppercase(s.get_char(0))
    }
}

/// Get symbol name from `Ident`.
pub fn get_name_from_ident(ident: &Ident) -> (r: String)
    ensures
        r@ == ident@.sym,
{
    ident.sym.clone()
}

/// Returns an identifier without a place in the source.
pub fn ident(sym: String) -> (r: Ident)
    ensures
        r@ == (IdentView { sym: sym@, span: Span::dummy() }),
{
    Ident { sym, span: Span::dummy() }
}

/// Returns an identifier by string.
pub fn ident_str(sym: &String, span: Span) -> (r: Ident)
    ensures
        r@ == (IdentView { sym: sym@, span }),
{
    Ident { sym: sym.clone(), span }
}

/// Returns an identifier expression.
pub fn ident_expr(sym: String) -> (r: Expr)
    ensures
        r@ == ExprView::Ident(IdentView { sym: sym@, span: Span::dummy() }),
{
    Expr::Ident(ident(sym))
}

/// Returns an identifier expression by string.
pub fn ident_str_expr(sym: &String, span: Span) -> (r: Expr)
    ensures
        r@ == ExprView::Ident(IdentView { sym: sym@, span }),
{
    Expr::Ident(ident_str(sym, span))
}

/// Returns a string literal expression.
pub fn str_expr(value: &String) -> (r: Expr)
    ensures
        r@ == ExprView::Str(value@),
{
    Expr::Str(value.clone())
}

/// Returns a bool literal expression.
pub fn bool_expr(value: bool) -> (r: Expr)
    ensures
        r@ == ExprView::Bool(value),
{
    Expr::Bool(value)
}

/// Returns a function argument expression.
pub fn arg_expr(expr: Expr) -> (r: ExprOrSpread)
    ensures
        r@ == (ExprOrSpreadView { spread: None, expr: Box::new(expr@) }),
{
    ExprOrSpread { spread: None, expr: Box::new(expr) }
}

/// Returns an expression that reads a property of an object.
///
/// Code: `obj.prop`
pub fn obj_prop_expr(obj: Expr, prop: Ident) -> (r: Expr)
    ensures
        r@ == ExprView::Member(Box::new(obj@), prop@),
{
    Expr::Member(Box::new(obj), prop)
}

/// Returns an expression that assign right to left.
///
/// Code: `left = right`
pub fn assign_expr(left: Expr, right: Expr) -> (r: Expr)
    ensures
        r@ == ExprView::Assign(Box::new(left@), Box::new(right@)),
{
    Expr::Assign(Box::new(left), Box::new(right))
}

/// Returns an expression that call function with arguments.
///
/// Code: `callee(arg1, arg2, ...)`
pub fn call_expr(callee: Expr, args: Vec<ExprOrSpread>) -> (r: Expr)
    ensures
        r@ == ExprView::Call(Box::new(callee@), args_view(args)),
{
    Expr::Call(Box::new(callee), args)
}

/// Returns a statement that declare variable and assign.
///
/// Code: `var name = init;`
pub fn decl_var_and_assign_stmt(name: Ident, init: Expr) -> (r: Stmt)
    ensures
        r@ == StmtView::Decl(
            DeclView::Var(
                VarDeclKind::Var,
                seq![
                    VarDeclaratorView {
                        name: PatView::Ident(name@),
                        init: Some(Box::new(init@)),
                    },
                ],
            ),
        ),
{
    let ghost name_view = name@;
    let ghost init_view = init@;
    let decls = vec![VarDeclarator { name: Pat::Ident(name), init: Some(Box::new(init)) }];
    proof {
        assert(declarators_view(decls) =~= seq![
            VarDeclaratorView { name: PatView::Ident(name_view), init: Some(Box::new(init_view)) },
        ]);
    }
    Stmt::Decl(Decl::Var(VarDeclKind::Var, decls))
}

/// Returns expr statement.
pub fn to_stmt(expr: Expr) -> (r: Stmt)
    ensures
        r@ == StmtView::Expr(expr@),
{
    Stmt::Expr(expr)
}

} // verus!
