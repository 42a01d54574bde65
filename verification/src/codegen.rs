//! The statements that the rewriter puts around an instrumented module.
//!
//! They address the "context" runtime through three globals:
//! `global.$RefreshReg$` (the registration hook), `global.$RefreshSig$` (the
//! signature hook) and `global.$RefreshRuntime$` (the runtime itself).
use crate::component::SIGNATURE_FN;
use crate::syntax::{
    args_view, DeclView, Expr, ExprOrSpread, ExprOrSpreadView, ExprView, IdentView, PatView, Span,
    StmtView, VarDeclKind, VarDeclaratorView,
};
use crate::utils::{ident, ident_expr, obj_prop_expr};
use vstd::prelude::*;

verus! {

/// The global object.
pub const GLOBAL: &'static str = "global";

/// The global that holds the registration hook.
pub const REGISTER_REF: &'static str = "$RefreshReg$";

/// The global that holds the signature hook.
pub const SIGNATURE_REF: &'static str = "$RefreshSig$";

/// The global that holds the runtime.
pub const RUNTIME_REF: &'static str = "$RefreshRuntime$";

/// The method of the runtime that gives a registration function.
pub const RUNTIME_GET_REGISTER_FN: &'static str = "getRegisterFunction";

/// The method of the runtime that gives a signature function.
pub const RUNTIME_GET_SIGNATURE_FN: &'static str = "getCreateSignatureFunction";

/// The method of the runtime that gives the context of a component.
pub const RUNTIME_GET_CONTEXT_FN: &'static str = "getContext";

/// The method of a context that accepts updates of its component.
pub const CONTEXT_ACCEPT_FN: &'static str = "accept";

/// The local in which the registration hook is saved.
pub const TEMP_REGISTER_REF: &'static str = "__prevRefreshReg";

/// The local in which the signature hook is saved.
pub const TEMP_SIGNATURE_REF: &'static str = "__prevRefreshSig";

/// `sym`, written by the rewriter.
pub open spec fn name_view(sym: Seq<char>) -> IdentView {
    IdentView { sym, span: Span::dummy() }
}

/// `obj.prop`
pub open spec fn member_view(obj: ExprView, prop: Seq<char>) -> ExprView {
    ExprView::Member(Box::new(obj), name_view(prop))
}

/// `global.prop`
pub open spec fn global_view(prop: Seq<char>) -> ExprView {
    member_view(ExprView::Ident(name_view(GLOBAL@)), prop)
}

/// `global.$RefreshRuntime$.method`
pub open spec fn runtime_view(method: Seq<char>) -> ExprView {
    member_view(global_view(RUNTIME_REF@), method)
}

/// An argument that is not spread.
pub open spec fn arg_of(e: ExprView) -> ExprOrSpreadView {
    ExprOrSpreadView { spread: None, expr: Box::new(e) }
}

/// `callee(args);`
pub open spec fn call_stmt_view(callee: ExprView, args: Seq<ExprOrSpreadView>) -> StmtView {
    StmtView::Expr(ExprView::Call(Box::new(callee), args))
}

/// `left = right;`
pub open spec fn assign_stmt_view(left: ExprView, right: ExprView) -> StmtView {
    StmtView::Expr(ExprView::Assign(Box::new(left), Box::new(right)))
}

/// `var name = init;`
pub open spec fn var_stmt_view(name: Seq<char>, init: ExprView) -> StmtView {
    StmtView::Decl(
        DeclView::Var(
            VarDeclKind::Var,
            seq![
                VarDeclaratorView {
                    name: PatView::Ident(name_view(name)),
                    init: Some(Box::new(init)),
                },
            ],
        ),
    )
}

/// The component `name`, referred to at the place of its declaration.
pub open spec fn component_ref(name: Seq<char>, span: Span) -> ExprView {
    ExprView::Ident(IdentView { sym: name, span })
}

/// The identifier of a component for the runtime: `moduleId:componentName`.
pub open spec fn component_id(module_id: Seq<char>, name: Seq<char>) -> Seq<char> {
    module_id + seq![':'] + name
}

/// `var var_name = global.prop;`
pub open spec fn assign_temp_ref_fn_stmt(var_name: Seq<char>, prop: Seq<char>) -> StmtView {
    var_stmt_view(var_name, global_view(prop))
}

/// `global.$RefreshReg$ = global.$RefreshRuntime$.getRegisterFunction();`
pub open spec fn assign_register_fn_stmt() -> StmtView {
    assign_stmt_view(
        global_view(REGISTER_REF@),
        ExprView::Call(Box::new(runtime_view(RUNTIME_GET_REGISTER_FN@)), Seq::empty()),
    )
}

/// `global.$RefreshSig$ = global.$RefreshRuntime$.getCreateSignatureFunction();`
pub open spec fn assign_signature_fn_stmt() -> StmtView {
    assign_stmt_view(
        global_view(SIGNATURE_REF@),
        ExprView::Call(Box::new(runtime_view(RUNTIME_GET_SIGNATURE_FN@)), Seq::empty()),
    )
}

/// `var __s = global.$RefreshSig$();`
pub open spec fn create_signature_fn_stmt() -> StmtView {
    var_stmt_view(
        SIGNATURE_FN@,
        ExprView::Call(Box::new(global_view(SIGNATURE_REF@)), Seq::empty()),
    )
}

/// `__s(Component, "moduleId:Component", has_custom_hook_call);`
pub open spec fn call_signature_fn_stmt(
    module_id: Seq<char>,
    name: Seq<char>,
    span: Span,
    has_custom_hook_call: bool,
) -> StmtView {
    call_stmt_view(
        ExprView::Ident(name_view(SIGNATURE_FN@)),
        seq![
            arg_of(component_ref(name, span)),
            arg_of(ExprView::Str(component_id(module_id, name))),
            arg_of(ExprView::Bool(has_custom_hook_call)),
        ],
    )
}

/// `global.$RefreshReg$(Component, "Component");`
pub open spec fn call_register_fn_stmt(name: Seq<char>, span: Span) -> StmtView {
    call_stmt_view(
        global_view(REGISTER_REF@),
        seq![arg_of(component_ref(name, span)), arg_of(ExprView::Str(name))],
    )
}

/// `global.$RefreshRuntime$.getContext(Component).accept();`
pub open spec fn call_accept_stmt(name: Seq<char>, span: Span) -> StmtView {
    call_stmt_view(
        member_view(
            ExprView::Call(
                Box::new(runtime_view(RUNTIME_GET_CONTEXT_FN@)),
                seq![arg_of(component_ref(name, span))],
            ),
            CONTEXT_ACCEPT_FN@,
        ),
        Seq::empty(),
    )
}

/// `global.prop = var_name;`
pub open spec fn restore_ref_fn_stmt(prop: Seq<char>, var_name: Seq<char>) -> StmtView {
    assign_stmt_view(global_view(prop), ExprView::Ident(name_view(var_name)))
}

/// `global.prop`
pub fn global_prop_expr(prop: &str) -> (r: Expr)
    ensures
        r@ == global_view(prop@),
{
    obj_prop_expr(ident_expr(String::from_str(GLOBAL)), ident(String::from_str(prop)))
}

/// `global.$RefreshRuntime$.method`
pub fn runtime_fn_expr(method: &str) -> (r: Expr)
    ensures
        r@ == runtime_view(method@),
{
    obj_prop_expr(global_prop_expr(RUNTIME_REF), ident(String::from_str(method)))
}

/// No arguments.
pub fn no_args() -> (r: Vec<ExprOrSpread>)
    ensures
        args_view(r) == Seq::<ExprOrSpreadView>::empty(),
{
    let r: Vec<ExprOrSpread> = Vec::new();
    assert(args_view(r) =~= Seq::<ExprOrSpreadView>::empty());
    r
}

} // verus!
