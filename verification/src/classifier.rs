//! The component classifier: which top-level items declare a binding in a
//! shape that may be a component.
use crate::syntax::{
    declarators_view, Decl, DeclView, DefaultDecl, DefaultDeclView, Expr, ExprView, Ident,
    IdentView, ModuleDecl, ModuleDeclView, ModuleItem, ModuleItemView, Pat, PatView, Stmt,
    StmtView, VarDeclarator, VarDeclaratorView,
};
use crate::utils::{is_component_name, is_react_component_name};
use vstd::prelude::*;

verus! {

/// The binding that a declarator gives to a function, an arrow or the result
/// of a call.
pub open spec fn declarator_binding(d: VarDeclaratorView) -> Option<IdentView> {
    match (d.name, d.init) {
        (PatView::Ident(name), Some(init)) => match *init {
            ExprView::Fn(_, _) => Some(name),
            ExprView::Arrow(_) => Some(name),
            ExprView::Call(_, _) => Some(name),
            _ => None,
        },
        _ => None,
    }
}

/// The binding that a declaration offers as a component: the name of a
/// function, or the one declarator of a variable declaration. A declaration
/// of several variables offers none.
pub open spec fn decl_binding(d: DeclView) -> Option<IdentView> {
    match d {
        DeclView::Fn(name, _) => Some(name),
        DeclView::Var(_, ds) => if ds.len() == 1 {
            declarator_binding(ds[0])
        } else {
            None
        },
        DeclView::Class(_, _) => None,
    }
}

/// The binding that a top-level item offers as a component; `None` for every
/// item that is not examined.
pub open spec fn item_binding(item: ModuleItemView) -> Option<IdentView> {
    match item {
        ModuleItemView::Stmt(StmtView::Decl(d)) => decl_binding(d),
        ModuleItemView::ModuleDecl(ModuleDeclView::ExportDecl(d)) => decl_binding(d),
        ModuleItemView::ModuleDecl(
            ModuleDeclView::ExportDefaultDecl(DefaultDeclView::Fn(Some(name), _)),
        ) => Some(name),
        _ => None,
    }
}

/// What a top-level item is, going by its shape and the casing of the name
/// that it binds.
#[derive(Clone, Copy, Debug, PartialEq, Eq, Structural)]
pub enum ComponentShape {
    /// No examined shape, or a name that does not look like a component.
    NotAComponent,
    /// `function Name() { .. }`, `const Name = function() { .. }`
    FunctionComponent,
    /// `const Name = () => ..`
    ArrowComponent,
    /// `const Name = memo(..)`, or any other call
    HocWrappedComponent,
}

/// The shape of a declarator, whatever the casing of its name.
pub open spec fn declarator_shape(d: VarDeclaratorView) -> ComponentShape {
    match (d.name, d.init) {
        (PatView::Ident(_), Some(init)) => match *init {
            ExprView::Fn(_, _) => ComponentShape::FunctionComponent,
            ExprView::Arrow(_) => ComponentShape::ArrowComponent,
            ExprView::Call(_, _) => ComponentShape::HocWrappedComponent,
            _ => ComponentShape::NotAComponent,
        },
        _ => ComponentShape::NotAComponent,
    }
}

/// The shape of a declaration, whatever the casing of its name.
pub open spec fn decl_shape(d: DeclView) -> ComponentShape {
    match d {
        DeclView::Fn(_, _) => ComponentShape::FunctionComponent,
        DeclView::Var(_, ds) => if ds.len() == 1 {
            declarator_shape(ds[0])
        } else {
            ComponentShape::NotAComponent
        },
        DeclView::Class(_, _) => ComponentShape::NotAComponent,
    }
}

/// The shape of a top-level item, whatever the casing of its name.
pub open spec fn item_bare_shape(item: ModuleItemView) -> ComponentShape {
    match item {
        ModuleItemView::Stmt(StmtView::Decl(d)) => decl_shape(d),
        ModuleItemView::ModuleDecl(ModuleDeclView::ExportDecl(d)) => decl_shape(d),
        ModuleItemView::ModuleDecl(
            ModuleDeclView::ExportDefaultDecl(DefaultDeclView::Fn(Some(_), _)),
        ) => ComponentShape::FunctionComponent,
        _ => ComponentShape::NotAComponent,
    }
}

/// What a top-level item is: a component of the shape in which it binds its
/// name, if it binds one in an examined shape and the name looks like a
/// component.
pub open spec fn item_shape(item: ModuleItemView) -> ComponentShape {
    match item_binding(item) {
        Some(name) => if is_component_name(name.sym) {
            item_bare_shape(item)
        } else {
            ComponentShape::NotAComponent
        },
        None => ComponentShape::NotAComponent,
    }
}

/// Classifies a declarator by the shape of what it is initialised with.
pub fn classify_declarator(var_decl: &VarDeclarator) -> (r: (ComponentShape, Option<&Ident>))
    ensures
        r.0 == declarator_shape(var_decl@),
        match r.1 {
            Some(name) => declarator_binding(var_decl@) == Some(name@),
            None => declarator_binding(var_decl@) is None,
        },
{
    if let (Pat::Ident(ident), Some(init_expr)) = (&var_decl.name, &var_decl.init) {
        match &**init_expr {
            Expr::Fn(_, _) => (ComponentShape::FunctionComponent, Some(ident)),
            Expr::Arrow(_) => (ComponentShape::ArrowComponent, Some(ident)),
            Expr::Call(_, _) => (ComponentShape::HocWrappedComponent, Some(ident)),
            _ => (ComponentShape::NotAComponent, None),
        }
    } else {
        (ComponentShape::NotAComponent, None)
    }
}

/// Classifies a declaration by its shape.
pub fn classify_decl(decl: &Decl) -> (r: (ComponentShape, Option<&Ident>))
    ensures
        r.0 == decl_shape(decl@),
        match r.1 {
            Some(name) => decl_binding(decl@) == Some(name@),
            None => decl_binding(decl@) is None,
        },
{
    match decl {
        Decl::Fn(fn_ident, _) => (ComponentShape::FunctionComponent, Some(fn_ident)),
        Decl::Var(_, decls) => {
            if decls.len() == 1 {
                assert(declarators_view(*decls)[0] == decls[0]@);
                classify_declarator(&decls[0])
            } else {
                (ComponentShape::NotAComponent, None)
            }
        },
        Decl::Class(_, _) => (ComponentShape::NotAComponent, None),
    }
}

/// Classifies a top-level item by its shape, and finds the name that it
/// binds in that shape.
pub fn classify_item(item: &ModuleItem) -> (r: (ComponentShape, Option<&Ident>))
    ensures
        r.0 == item_bare_shape(item@),
        match r.1 {
            Some(name) => item_binding(item@) == Some(name@),
            None => item_binding(item@) is None,
        },
{
    match item {
        ModuleItem::Stmt(Stmt::Decl(decl)) => classify_decl(decl),
        ModuleItem::ModuleDecl(ModuleDecl::ExportDecl(decl)) => classify_decl(decl),
        ModuleItem::ModuleDecl(
            ModuleDecl::ExportDefaultDecl(DefaultDecl::Fn(Some(fn_ident), _)),
        ) => (ComponentShape::FunctionComponent, Some(fn_ident)),
        _ => (ComponentShape::NotAComponent, None),
    }
}

/// Classifies a top-level item by its shape and the casing of its name.
pub fn classify(item: &ModuleItem) -> (r: ComponentShape)
    ensures
        r == item_shape(item@),
{
    match classify_item(item) {
        (shape, Some(name)) => {
            if is_react_component_name(&name.sym) {
                shape
            } else {
                ComponentShape::NotAComponent
            }
        },
        (_, None) => ComponentShape::NotAComponent,
    }
}

} // verus!
