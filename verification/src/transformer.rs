//! The module rewriter: one pass over the items of a module that finds the
//! components, and the statements that are put around the module for them.
//!
//! A run goes through four states. It starts from a state without output
//! and without components that knows the exclusion set of the module
//! ([`initial`]). Scanning takes the items in source order and, for each,
//! either accepts it as a component or passes it on ([`RuntimeView::step`]).
//! Finalizing puts the prologue, the epilogue and the restoration around the
//! output if a component was accepted ([`RuntimeView::output`]), and the run
//! is done. Nothing of a run is left for the next one.
use crate::classifier::{classify_declarator, classify_item, declarator_binding, item_binding};
use crate::codegen::{
    arg_of, assign_register_fn_stmt, assign_signature_fn_stmt, assign_temp_ref_fn_stmt,
    call_accept_stmt, call_register_fn_stmt, call_signature_fn_stmt, component_id, component_ref,
    create_signature_fn_stmt, global_prop_expr, no_args, restore_ref_fn_stmt, runtime_fn_expr,
    CONTEXT_ACCEPT_FN, REGISTER_REF, RUNTIME_GET_CONTEXT_FN, RUNTIME_GET_REGISTER_FN,
    RUNTIME_GET_SIGNATURE_FN, SIGNATURE_REF, TEMP_REGISTER_REF, TEMP_SIGNATURE_REF,
};
use crate::component::{ReactRefreshRuntimeComponent, SIGNATURE_FN};
use crate::names::NameSet;
use crate::syntax::{
    args_view, items_view, ExprView, Ident, IdentView, Module, ModuleItem, ModuleItemView,
    ModuleView, Span, Stmt, StmtView, VarDeclarator,
};
use crate::utils::{
    arg_expr, assign_expr, bool_expr, call_expr, decl_var_and_assign_stmt, get_name_from_ident,
    ident, ident_expr, ident_str_expr, is_component_name, is_react_component_name, obj_prop_expr,
    str_expr, to_stmt,
};
use crate::visitor::{black_list_collector, exclusions};
use crate::walk::{findings, probed_item};
use vstd::prelude::*;

verus! {

/// What the rewriter keeps of an accepted component.
#[derive(Debug, PartialEq, Eq)]
pub struct ComponentMeta {
    /// Where the name of the component is declared.
    pub span: Span,
    pub name: String,
    pub builtin_hook_count: u64,
    pub custom_hook_count: u64,
}

/// The view of a [`ComponentMeta`].
pub struct ComponentMetaView {
    pub span: Span,
    pub name: Seq<char>,
    pub builtin_hook_count: u64,
    pub custom_hook_count: u64,
}

impl View for ComponentMeta {
    type V = ComponentMetaView;

    open spec fn view(&self) -> ComponentMetaView {
        ComponentMetaView {
            span: self.span,
            name: self.name@,
            builtin_hook_count: self.builtin_hook_count,
            custom_hook_count: self.custom_hook_count,
        }
    }
}

impl ComponentMetaView {
    /// Whether the component calls any hook.
    pub open spec fn has_hook(self) -> bool {
        self.builtin_hook_count + self.custom_hook_count > 0
    }

    /// Whether the component calls a hook that is not React's own.
    pub open spec fn has_custom_hook(self) -> bool {
        self.custom_hook_count > 0
    }
}

/// The views of the records, in their order.
pub open spec fn metas_view(v: Vec<ComponentMeta>) -> Seq<ComponentMetaView> {
    Seq::new(v.len() as nat, |i: int| v[i]@)
}

/// The state of the rewriter.
pub struct RuntimeView {
    pub module_id: Seq<char>,
    /// The output so far.
    pub module_body: Seq<ModuleItemView>,
    /// The accepted components, in the order of their declarations.
    pub component_list: Seq<ComponentMetaView>,
    /// The names of the accepted components.
    pub component_names: Set<Seq<char>>,
    /// The exclusion set.
    pub black_list: Set<Seq<char>>,
}

impl RuntimeView {
    /// Whether the name is free to become a component: it was not accepted
    /// before, and it is not excluded.
    pub open spec fn admits(self, name: Seq<char>) -> bool {
        !self.component_names.contains(name) && !self.black_list.contains(name)
    }

    /// Whether a declaration of `name` may be a component: the name looks
    /// like one, was not accepted before, and is not excluded.
    pub open spec fn eligible(self, name: Seq<char>) -> bool {
        is_component_name(name) && self.admits(name)
    }

    /// Whether `item`, which binds `name`, is accepted as a component: the
    /// name is eligible, and the block analyzed last was not empty.
    pub open spec fn folds(self, item: ModuleItemView, name: IdentView) -> bool {
        self.eligible(name.sym) && !findings(item).is_empty
    }

    /// The state after `item` was accepted as the component `name`.
    pub open spec fn accepted(self, item: ModuleItemView, name: IdentView) -> RuntimeView {
        RuntimeView {
            module_id: self.module_id,
            module_body: self.module_body.push(probed_item(item)),
            component_list: self.component_list.push(
                ComponentMetaView {
                    span: name.span,
                    name: name.sym,
                    builtin_hook_count: findings(item).builtin_hook_count,
                    custom_hook_count: findings(item).custom_hook_count,
                },
            ),
            component_names: self.component_names.insert(name.sym),
            black_list: self.black_list,
        }
    }

    /// The state after `item` went to the output as it is.
    pub open spec fn passed(self, item: ModuleItemView) -> RuntimeView {
        RuntimeView { module_body: self.module_body.push(item), ..self }
    }

    /// The state after one item was scanned.
    pub open spec fn step(self, item: ModuleItemView) -> RuntimeView {
        match item_binding(item) {
            Some(name) => if self.folds(item, name) {
                self.accepted(item, name)
            } else {
                self.passed(item)
            },
            None => self.passed(item),
        }
    }

    /// The state after the items were scanned in source order.
    pub open spec fn scan(self, items: Seq<ModuleItemView>) -> RuntimeView
        decreases items.len(),
    {
        if items.len() == 0 {
            self
        } else {
            self.scan(items.drop_last()).step(items.last())
        }
    }

    /// The items that leave the rewriter: the output of the scan as it is if
    /// no component was accepted, else with the prologue before it and the
    /// epilogue and the restoration behind it.
    pub open spec fn output(self) -> Seq<ModuleItemView> {
        if self.component_list.len() == 0 {
            self.module_body
        } else {
            prologue(uses_hooks(self.component_list)) + self.module_body + epilogue(
                self.module_id,
                self.component_list,
            ) + restoration()
        }
    }
}

/// A statement as a top-level item.
pub open spec fn stmt_item(s: StmtView) -> ModuleItemView {
    ModuleItemView::Stmt(s)
}

/// Whether any of the components calls a hook.
pub open spec fn uses_hooks(list: Seq<ComponentMetaView>) -> bool {
    exists|i: int| 0 <= i < list.len() && list[i].has_hook()
}

/// The statements in front of the module: the two hooks are saved, a fresh
/// registration function is installed and, if a component calls hooks, a
/// fresh signature function too, of which `__s` is made.
pub open spec fn prologue(with_signature: bool) -> Seq<ModuleItemView> {
    let head = seq![
        stmt_item(assign_temp_ref_fn_stmt(TEMP_REGISTER_REF@, REGISTER_REF@)),
        stmt_item(assign_temp_ref_fn_stmt(TEMP_SIGNATURE_REF@, SIGNATURE_REF@)),
        stmt_item(assign_register_fn_stmt()),
    ];
    if with_signature {
        head + seq![stmt_item(assign_signature_fn_stmt()), stmt_item(create_signature_fn_stmt())]
    } else {
        head
    }
}

/// The statements behind the module for one component: its signature, if it
/// calls hooks, then its registration and the acceptance of updates.
pub open spec fn component_epilogue(module_id: Seq<char>, c: ComponentMetaView) -> Seq<
    ModuleItemView,
> {
    let tail = seq![
        stmt_item(call_register_fn_stmt(c.name, c.span)),
        stmt_item(call_accept_stmt(c.name, c.span)),
    ];
    if c.has_hook() {
        seq![stmt_item(call_signature_fn_stmt(module_id, c.name, c.span, c.has_custom_hook()))]
            + tail
    } else {
        tail
    }
}

/// The statements behind the module for the components, in their order.
pub open spec fn epilogue(module_id: Seq<char>, list: Seq<ComponentMetaView>) -> Seq<
    ModuleItemView,
>
    decreases list.len(),
{
    if list.len() == 0 {
        Seq::empty()
    } else {
        epilogue(module_id, list.drop_last()) + component_epilogue(module_id, list.last())
    }
}

/// The two statements at the end, which put the saved hooks back.
pub open spec fn restoration() -> Seq<ModuleItemView> {
    seq![
        stmt_item(restore_ref_fn_stmt(REGISTER_REF@, TEMP_REGISTER_REF@)),
        stmt_item(restore_ref_fn_stmt(SIGNATURE_REF@, TEMP_SIGNATURE_REF@)),
    ]
}

/// The state in which the scan of a module starts.
pub open spec fn initial(module_id: Seq<char>, m: ModuleView) -> RuntimeView {
    RuntimeView {
        module_id,
        module_body: Seq::empty(),
        component_list: Seq::empty(),
        component_names: Set::empty(),
        black_list: exclusions(m.body),
    }
}

/// The state in which the scan of a module ends.
pub open spec fn scanned(module_id: Seq<char>, m: ModuleView) -> RuntimeView {
    initial(module_id, m).scan(m.body)
}

/// The module `m`, instrumented under the identifier `module_id`.
pub open spec fn rewritten(module_id: Seq<char>, m: ModuleView) -> ModuleView {
    ModuleView { body: scanned(module_id, m).output() }
}

/// The state in which the scan reaches item `i` of the module.
pub open spec fn state_before(module_id: Seq<char>, m: ModuleView, i: int) -> RuntimeView {
    initial(module_id, m).scan(m.body.take(i))
}

/// Whether item `i` of the module is accepted as a component.
pub open spec fn accepted_at(module_id: Seq<char>, m: ModuleView, i: int) -> bool {
    match item_binding(m.body[i]) {
        Some(name) => state_before(module_id, m, i).folds(m.body[i], name),
        None => false,
    }
}

/// Find React components from module.
/// And then add signature, register components and accept for HMR.
pub struct ReactRefreshRuntime {
    module_id: String,
    module_body: Vec<ModuleItem>,
    component_list: Vec<ComponentMeta>,
    component_names: NameSet,
    black_list: NameSet,
}

impl View for ReactRefreshRuntime {
    type V = RuntimeView;

    closed spec fn view(&self) -> RuntimeView {
        RuntimeView {
            module_id: self.module_id@,
            module_body: items_view(self.module_body),
            component_list: metas_view(self.component_list),
            component_names: self.component_names@,
            black_list: self.black_list@,
        }
    }
}

impl ReactRefreshRuntime {
    /// A rewriter for the module `module_id` that has seen nothing yet.
    pub fn default(module_id: String) -> (r: ReactRefreshRuntime)
        ensures
            r@ == (RuntimeView {
                module_id: module_id@,
                module_body: Seq::empty(),
                component_list: Seq::empty(),
                component_names: Set::empty(),
                black_list: Set::empty(),
            }),
    {
        let r = ReactRefreshRuntime {
            module_id,
            module_body: Vec::new(),
            component_list: Vec::new(),
            component_names: NameSet::new(),
            black_list: NameSet::new(),
        };
        assert(r@.module_body =~= Seq::empty());
        assert(r@.component_list =~= Seq::empty());
        r
    }

    /// Forgets what an earlier run has left.
    pub fn initialize_before_fold_module(&mut self)
        ensures
            final(self)@ == (RuntimeView {
                module_id: old(self)@.module_id,
                module_body: Seq::empty(),
                component_list: Seq::empty(),
                component_names: Set::empty(),
                black_list: Set::empty(),
            }),
    {
        self.module_body.clear();
        self.component_list.clear();
        self.component_names.clear();
        self.black_list.clear();
        assert(self@.module_body =~= Seq::empty());
        assert(self@.component_list =~= Seq::empty());
    }

    /// Collects the exclusion set of the module.
    pub fn prepare_before_fold_module(&mut self, module: &Module)
        ensures
            final(self)@ == (RuntimeView { black_list: exclusions(module@.body), ..old(self)@ }),
    {
        let mut collector = black_list_collector();
        collector.visit_module(module);
        self.black_list = collector.get_black_list();
        assert(self@.black_list =~= exclusions(module@.body));
    }

    /// Returns id: `module_id:identifier`.
    pub fn get_id(&self, identifier: &String) -> (r: String)
        ensures
            r@ == component_id(self@.module_id, identifier@),
    {
        let mut owned_string = self.module_id.clone();
        owned_string.append(":");
        owned_string.append(identifier.as_str());
        proof {
            reveal_strlit(":");
            assert(":"@ =~= seq![':']);
        }
        owned_string
    }

    /// Fold with ReactRefreshRuntimeComponent if it is valid React component.
    ///
    /// Returns `true` when folded and otherwise returns `false`
    pub fn fold_if_react_component(&mut self, module: &ModuleItem, ident: &Ident) -> (r: bool)
        ensures
            r == old(self)@.folds(module@, ident@),
            final(self)@ == if r {
                old(self)@.accepted(module@, ident@)
            } else {
                old(self)@
            },
    {
        let component_like = is_react_component_name(&ident.sym);
        self.fold_if_component_like(module, ident, component_like)
    }

    /// Folds the item `module`, which binds `ident`, given whether the name
    /// looks like a component: the item is accepted if it does, the name is
    /// neither seen nor excluded, and the block analyzed last is not empty.
    ///
    /// Returns `true` when folded and otherwise returns `false`
    pub fn fold_if_component_like(
        &mut self,
        module: &ModuleItem,
        ident: &Ident,
        component_like: bool,
    ) -> (r: bool)
        ensures
            r == (component_like && old(self)@.admits(ident@.sym) && !findings(module@).is_empty),
            final(self)@ == if r {
                old(self)@.accepted(module@, ident@)
            } else {
                old(self)@
            },
    {
        let component_name = get_name_from_ident(ident);
        if component_like && !self.component_names.contains(&component_name)
            && !self.black_list.contains(&component_name) {
            let mut component = ReactRefreshRuntimeComponent::default();
            let component_stmt = component.walk_module_item(module);

            if !component.is_empty {
                self.module_body.push(component_stmt);
                self.component_names.insert(component_name.clone());
                self.component_list.push(
                    ComponentMeta {
                        span: ident.span,
                        name: component_name,
                        builtin_hook_count: component.builtin_hook_count,
                        custom_hook_count: component.custom_hook_count,
                    },
                );
                proof {
                    let after = old(self)@.accepted(module@, ident@);
                    assert(self@.module_body =~= after.module_body);
                    assert(self@.component_list =~= after.component_list);
                }
                return true;
            }
        }
        false
    }

    /// Fold with ReactRefreshRuntimeComponent if it is valid React component.
    ///
    /// Returns `true` when folded and otherwise returns `false`
    pub fn fold_var_declarator(&mut self, module: &ModuleItem, var_decl: &VarDeclarator) -> (r:
        bool)
        ensures
            r == match declarator_binding(var_decl@) {
                Some(name) => old(self)@.folds(module@, name),
                None => false,
            },
            final(self)@ == match declarator_binding(var_decl@) {
                Some(name) => if r {
                    old(self)@.accepted(module@, name)
                } else {
                    old(self)@
                },
                None => old(self)@,
            },
    {
        match classify_declarator(var_decl) {
            (_, Some(ident)) => self.fold_if_react_component(module, ident),
            (_, None) => false,
        }
    }

    /// Returns a statement that temporarily stores the registration function.
    ///
    /// Code: `var __prevRefreshReg = global.$RefreshReg$;`
    /// Code: `var __prevRefreshSig = global.$RefreshSig$;`
    pub fn get_assign_temp_ref_fn_stmt(&self, var_name: String, prop: String) -> (r: Stmt)
        ensures
            r@ == assign_temp_ref_fn_stmt(var_name@, prop@),
    {
        decl_var_and_assign_stmt(ident(var_name), global_prop_expr(prop.as_str()))
    }

    /// Returns a statement that create register function and override.
    ///
    /// Code: `global.$RefreshReg$ = global.$RefreshRuntime$.getRegisterFunction();`
    pub fn get_assign_register_fn_stmt(&self) -> (r: Stmt)
        ensures
            r@ == assign_register_fn_stmt(),
    {
        let left = global_prop_expr(REGISTER_REF);
        let right = call_expr(runtime_fn_expr(RUNTIME_GET_REGISTER_FN), no_args());
        to_stmt(assign_expr(left, right))
    }

    /// Returns a statement that override the signature function variable.
    ///
    /// Code: `global.$RefreshSig$ = global.$RefreshRuntime$.getCreateSignatureFunction();`
    pub fn get_assign_signature_fn_stmt(&self) -> (r: Stmt)
        ensures
            r@ == assign_signature_fn_stmt(),
    {
        let left = global_prop_expr(SIGNATURE_REF);
        let right = call_expr(runtime_fn_expr(RUNTIME_GET_SIGNATURE_FN), no_args());
        to_stmt(assign_expr(left, right))
    }

    /// Returns a statement that declares the signature function variable
    /// and assigns it after create the signature function.
    ///
    /// Code: `var __s = global.$RefreshSig$();`
    pub fn get_create_signature_fn_stmt(&self) -> (r: Stmt)
        ensures
            r@ == create_signature_fn_stmt(),
    {
        decl_var_and_assign_stmt(
            ident(String::from_str(SIGNATURE_FN)),
            call_expr(global_prop_expr(SIGNATURE_REF), no_args()),
        )
    }

    /// Returns a statement that call the created signature function.
    ///
    /// Code: `__s(Component, "module_id:Component", has_custom_hook_call);`
    pub fn get_call_signature_fn_stmt(
        &self,
        component_name: &String,
        span: Span,
        has_custom_hook_call: bool,
    ) -> (r: Stmt)
        ensures
            r@ == call_signature_fn_stmt(
                self@.module_id,
                component_name@,
                span,
                has_custom_hook_call,
            ),
    {
        let id = self.get_id(component_name);
        let args = vec![
            arg_expr(ident_str_expr(component_name, span)),
            arg_expr(str_expr(&id)),
            arg_expr(bool_expr(has_custom_hook_call)),
        ];
        assert(args_view(args) =~= seq![
            arg_of(component_ref(component_name@, span)),
            arg_of(ExprView::Str(component_id(self@.module_id, component_name@))),
            arg_of(ExprView::Bool(has_custom_hook_call)),
        ]);
        to_stmt(call_expr(ident_expr(String::from_str(SIGNATURE_FN)), args))
    }

    /// Returns a statement that call the register function.
    ///
    /// Code: `global.$RefreshReg$(Component, "Component");`
    pub fn get_call_register_fn_stmt(&self, component_name: &String, span: Span) -> (r: Stmt)
        ensures
            r@ == call_register_fn_stmt(component_name@, span),
    {
        let args = vec![
            arg_expr(ident_str_expr(component_name, span)),
            arg_expr(str_expr(component_name)),
        ];
        assert(args_view(args) =~= seq![
            arg_of(component_ref(component_name@, span)),
            arg_of(ExprView::Str(component_name@)),
        ]);
        to_stmt(call_expr(global_prop_expr(REGISTER_REF), args))
    }

    /// Returns a statement that call the HMR accept method.
    ///
    /// Code: `global.$RefreshRuntime$.getContext(Component).accept();`
    pub fn get_call_accept_stmt(&self, component_name: &String, span: Span) -> (r: Stmt)
        ensures
            r@ == call_accept_stmt(component_name@, span),
    {
        let args = vec![arg_expr(ident_str_expr(component_name, span))];
        assert(args_view(args) =~= seq![arg_of(component_ref(component_name@, span))]);
        let call_get_ctx_fn = call_expr(runtime_fn_expr(RUNTIME_GET_CONTEXT_FN), args);
        to_stmt(
            call_expr(
                obj_prop_expr(call_get_ctx_fn, ident(String::from_str(CONTEXT_ACCEPT_FN))),
                no_args(),
            ),
        )
    }

    /// Returns a statement that restore the registration function from temporarily variable.
    ///
    /// Code: `global.$RefreshReg$ = __prevRefreshReg;`
    /// Code: `global.$RefreshSig$ = __prevRefreshSig;`
    pub fn get_restore_ref_fn_stmt(&self, prop: String, var_name: String) -> (r: Stmt)
        ensures
            r@ == restore_ref_fn_stmt(prop@, var_name@),
    {
        to_stmt(assign_expr(global_prop_expr(prop.as_str()), ident_expr(var_name)))
    }

    /// Examines one top-level item: if it declares a binding in one of the
    /// shapes that are examined, and the binding is accepted as a component,
    /// its instrumented form goes to the output.
    ///
    /// - Variable declarations of one declarator:
    ///   `const MyComponent = () => {};`,
    ///   `const MyComponent = function() {};`,
    ///   `const MyComponent = memo(() => {});`
    /// - Function declarations: `function MyComponent() {}`
    /// - The same behind `export`, and named functions behind
    ///   `export default`:
    ///   `export const MyComponent = () => {};`,
    ///   `export function MyComponent() {};`,
    ///   `export default function MyComponent() {};`
    ///
    /// Returns `true` when folded and otherwise returns `false`
    pub fn fold_module_item(&mut self, item: &ModuleItem) -> (r: bool)
        ensures
            r == match item_binding(item@) {
                Some(name) => old(self)@.folds(item@, name),
                None => false,
            },
            final(self)@ == if r {
                old(self)@.accepted(item@, item_binding(item@).unwrap())
            } else {
                old(self)@
            },
    {
        match classify_item(item) {
            (_, Some(ident)) => self.fold_if_react_component(item, ident),
            (_, None) => false,
        }
    }

    /// The records of the components that the last run accepted, in the
    /// order of their declarations.
    pub fn get_component_list(&self) -> (r: &Vec<ComponentMeta>)
        ensures
            metas_view(*r) == self@.component_list,
    {
        &self.component_list
    }

    /// Whether any component accepted so far calls a hook, so that the
    /// prologue installs the signature function.
    pub fn should_assign_sig_fn(&self) -> (r: bool)
        ensures
            r == uses_hooks(self@.component_list),
    {
        let mut i: usize = 0;
        while i < self.component_list.len()
            invariant
                i <= self.component_list.len(),
                forall|j: int| 0 <= j < i ==> !self@.component_list[j].has_hook(),
            decreases self.component_list.len() - i,
        {
            let component = &self.component_list[i];
            if component.builtin_hook_count > 0 || component.custom_hook_count > 0 {
                assert(self@.component_list[i as int].has_hook());
                return true;
            }
            i += 1;
        }
        false
    }

    /// Appends the statements that sign, register and accept the components.
    fn push_epilogue(&self, out: &mut Vec<ModuleItem>)
        ensures
            items_view(*final(out)) == items_view(*old(out)) + epilogue(
                self@.module_id,
                self@.component_list,
            ),
    {
        let ghost list = self@.component_list;
        let ghost id = self@.module_id;
        let ghost before = items_view(*out);
        assert(before + epilogue(id, list.take(0)) =~= before);
        let mut i: usize = 0;
        while i < self.component_list.len()
            invariant
                i <= self.component_list.len(),
                list == self@.component_list,
                id == self@.module_id,
                items_view(*out) == before + epilogue(id, list.take(i as int)),
            decreases self.component_list.len() - i,
        {
            let component = &self.component_list[i];
            let ghost c = list[i as int];
            assert(c == component@);
            let ghost so_far = items_view(*out);
            let has_hook = component.builtin_hook_count > 0 || component.custom_hook_count > 0;
            if has_hook {
                out.push(
                    ModuleItem::Stmt(
                        self.get_call_signature_fn_stmt(
                            &component.name,
                            component.span,
                            component.custom_hook_count > 0,
                        ),
                    ),
                );
            }
            out.push(
                ModuleItem::Stmt(self.get_call_register_fn_stmt(&component.name, component.span)),
            );
            out.push(ModuleItem::Stmt(self.get_call_accept_stmt(&component.name, component.span)));
            proof {
                assert(items_view(*out) =~= so_far + component_epilogue(id, c));
                assert(list.take(i + 1).drop_last() =~= list.take(i as int));
                assert(list.take(i + 1).last() == c);
                assert(before + epilogue(id, list.take(i + 1)) =~= so_far + component_epilogue(
                    id,
                    c,
                ));
            }
            i += 1;
        }
        assert(list.take(i as int) =~= list);
    }

    /// Rewrites a module: scans its items once in source order and, if a
    /// component was accepted, puts the prologue in front of the output and
    /// the epilogue and the restoration behind it. A module without a
    /// component comes back as it was.
    pub fn fold_module(&mut self, module: Module) -> (r: Module)
        ensures
            r@ == rewritten(old(self)@.module_id, module@),
            final(self)@ == (RuntimeView {
                module_body: Seq::empty(),
                ..scanned(old(self)@.module_id, module@)
            }),
    {
        self.initialize_before_fold_module();
        self.prepare_before_fold_module(&module);
        let ghost start = self@;
        let ghost items = module@.body;
        assert(start == initial(old(self)@.module_id, module@));
        let body = module.body;
        assert(start.scan(items.take(0)) == start);
        for item in it: body
            invariant
                it.seq().len() == items.len(),
                forall|j: int| 0 <= j < items.len() ==> it.seq()[j]@ == items[j],
                self@ == start.scan(items.take(it.index() as int)),
        {
            let ghost k = it.index() as int;
            let ghost before = self@;
            assert(item@ == items[k]);
            proof {
                assert(items.take(k + 1).drop_last() =~= items.take(k));
                assert(items.take(k + 1).last() == items[k]);
            }
            let is_folded = self.fold_module_item(&item);
            // An item that is no component goes to the output as it is.
            if !is_folded {
                self.module_body.push(item);
                assert(self@.module_body =~= before.passed(items[k]).module_body);
            }
            assert(self@ == before.step(items[k]));
        }
        assert(items.take(items.len() as int) =~= items);
        let ghost end = self@;
        assert(end == scanned(old(self)@.module_id, module@));

        let mut out: Vec<ModuleItem> = Vec::new();
        if self.component_list.len() > 0 {
            // var __prevRefreshReg = global.$RefreshReg$;
            // var __prevRefreshSig = global.$RefreshSig$;
            // global.$RefreshReg$ = global.$RefreshRuntime$.getRegisterFunction();
            out.push(
                ModuleItem::Stmt(
                    self.get_assign_temp_ref_fn_stmt(
                        String::from_str(TEMP_REGISTER_REF),
                        String::from_str(REGISTER_REF),
                    ),
                ),
            );
            out.push(
                ModuleItem::Stmt(
                    self.get_assign_temp_ref_fn_stmt(
                        String::from_str(TEMP_SIGNATURE_REF),
                        String::from_str(SIGNATURE_REF),
                    ),
                ),
            );
            out.push(ModuleItem::Stmt(self.get_assign_register_fn_stmt()));
            // If any components use hooks, define a signature function.
            //
            // global.$RefreshSig$ = global.$RefreshRuntime$.getCreateSignatureFunction();
            // var __s = global.$RefreshSig$();
            let with_signature = self.should_assign_sig_fn();
            if with_signature {
                out.push(ModuleItem::Stmt(self.get_assign_signature_fn_stmt()));
                out.push(ModuleItem::Stmt(self.get_create_signature_fn_stmt()));
            }
            assert(items_view(out) =~= prologue(with_signature));
            out.append(&mut self.module_body);
            assert(items_view(out) =~= prologue(with_signature) + end.module_body);
            assert(self@.module_body =~= Seq::empty());
            // __s(Component, "module_id:Component", false);
            // global.$RefreshReg$(Component, "Component");
            // global.$RefreshRuntime$.getContext(Component).accept();
            self.push_epilogue(&mut out);
            // Finally, put the saved react-refresh functions back.
            //
            // global.$RefreshReg$ = __prevRefreshReg;
            // global.$RefreshSig$ = __prevRefreshSig;
            let ghost so_far = items_view(out);
            out.push(
                ModuleItem::Stmt(
                    self.get_restore_ref_fn_stmt(
                        String::from_str(REGISTER_REF),
                        String::from_str(TEMP_REGISTER_REF),
                    ),
                ),
            );
            out.push(
                ModuleItem::Stmt(
                    self.get_restore_ref_fn_stmt(
                        String::from_str(SIGNATURE_REF),
                        String::from_str(TEMP_SIGNATURE_REF),
                    ),
                ),
            );
            assert(items_view(out) =~= so_far + restoration());
        } else {
            out.append(&mut self.module_body);
            assert(items_view(out) =~= end.module_body);
            assert(self@.module_body =~= Seq::empty());
        }
        Module { body: out }
    }
}

/// Returns the rewriter for the module that the runtime knows as
/// `module_id`.
pub fn react_refresh(module_id: String) -> (r: ReactRefreshRuntime)
    ensures
        r@ == (RuntimeView {
            module_id: module_id@,
            module_body: Seq::empty(),
            component_list: Seq::empty(),
            component_names: Set::empty(),
            black_list: Set::empty(),
        }),
{
    ReactRefreshRuntime::default(module_id)
}

} // verus!
