//! What holds of every module that is rewritten.
use crate::classifier::{item_binding, item_shape, ComponentShape};
use crate::codegen::{call_register_fn_stmt, call_signature_fn_stmt};
use crate::component::{
    counted, direct_calls, probe_stmt, stmt_calls, HookKind, ReactRefreshRuntimeComponent,
};
use crate::syntax::{
    BlockView, DeclView, DefaultDeclView, IdentView, ImportSpecifierView, ModuleDeclView,
    ModuleItemView, ModuleView, StmtView, VarDeclaratorView,
};
use crate::transformer::{
    accepted_at, component_epilogue, epilogue, prologue, restoration, rewritten, scanned,
    state_before, stmt_item, uses_hooks, ComponentMetaView,
};
use crate::utils::is_component_name;
use crate::visitor::{exclusions, item_exclusions, specifier_exclusions};
use crate::walk::{
    block_blocks, blocks_blocks, findings, item_blocks, lemma_after, probed_blocks, probed_item,
    probed_stmts, stmts_blocks, total_calls,
};
use vstd::prelude::*;

verus! {

/// The local name of specifier `k` of an import, if the item is an import and
/// the specifier a default or a named one.
pub open spec fn imported_name(item: ModuleItemView, k: int) -> Option<IdentView> {
    match item {
        ModuleItemView::ModuleDecl(ModuleDeclView::Import(specifiers)) => if 0 <= k
            < specifiers.len() {
            match specifiers[k] {
                ImportSpecifierView::Named(local) => Some(local),
                ImportSpecifierView::Default(local) => Some(local),
                ImportSpecifierView::Namespace(_) => None,
            }
        } else {
            None
        },
        _ => None,
    }
}

/// The name of the class that a top-level item declares, exported or not.
pub open spec fn class_name(item: ModuleItemView) -> Option<IdentView> {
    match item {
        ModuleItemView::Stmt(StmtView::Decl(DeclView::Class(name, _))) => Some(name),
        ModuleItemView::ModuleDecl(ModuleDeclView::ExportDecl(DeclView::Class(name, _))) => Some(
            name,
        ),
        _ => None,
    }
}

/// The declarators of the variable declaration that a top-level item is,
/// exported or not.
pub open spec fn declarators_of(item: ModuleItemView) -> Option<Seq<VarDeclaratorView>> {
    match item {
        ModuleItemView::Stmt(StmtView::Decl(DeclView::Var(_, ds))) => Some(ds),
        ModuleItemView::ModuleDecl(ModuleDeclView::ExportDecl(DeclView::Var(_, ds))) => Some(ds),
        _ => None,
    }
}

/// The record that the rewriter keeps of item `i`, if it accepts it.
pub open spec fn record_at(m: ModuleView, i: int) -> ComponentMetaView {
    ComponentMetaView {
        span: item_binding(m.body[i]).unwrap().span,
        name: item_binding(m.body[i]).unwrap().sym,
        builtin_hook_count: findings(m.body[i]).builtin_hook_count,
        custom_hook_count: findings(m.body[i]).custom_hook_count,
    }
}

/// Scanning one more item is one more step.
pub proof fn lemma_state_step(module_id: Seq<char>, m: ModuleView, i: int)
    requires
        0 <= i < m.body.len(),
    ensures
        state_before(module_id, m, i + 1) == state_before(module_id, m, i).step(m.body[i]),
        state_before(module_id, m, i + 1) == if accepted_at(module_id, m, i) {
            state_before(module_id, m, i).accepted(m.body[i], item_binding(m.body[i]).unwrap())
        } else {
            state_before(module_id, m, i).passed(m.body[i])
        },
{
    assert(m.body.take(i + 1).drop_last() =~= m.body.take(i));
    assert(m.body.take(i + 1).last() == m.body[i]);
}

/// What the state holds when the scan reaches item `n`: one output item for
/// each item scanned, the accepted ones instrumented and the others as they
/// were; the records of the accepted items, whose names are those that were
/// seen, look like components and are not excluded.
pub proof fn lemma_state_before(module_id: Seq<char>, m: ModuleView, n: int)
    requires
        0 <= n <= m.body.len(),
    ensures
        ({
            let st = state_before(module_id, m, n);
            &&& st.module_id == module_id
            &&& st.black_list == exclusions(m.body)
            &&& st.module_body.len() == n
            &&& forall|i: int|
                0 <= i < n ==> #[trigger] st.module_body[i] == if accepted_at(module_id, m, i) {
                    probed_item(m.body[i])
                } else {
                    m.body[i]
                }
            &&& st.component_list.len() <= n
            &&& forall|k: int|
                0 <= k < st.component_list.len() ==> {
                    &&& st.component_names.contains(#[trigger] st.component_list[k].name)
                    &&& is_component_name(st.component_list[k].name)
                    &&& !exclusions(m.body).contains(st.component_list[k].name)
                }
            &&& (st.component_list.len() == 0 <==> forall|i: int|
                0 <= i < n ==> !#[trigger] accepted_at(module_id, m, i))
        }),
    decreases n,
{
    if n == 0 {
        assert(m.body.take(0) =~= Seq::empty());
    } else {
        lemma_state_before(module_id, m, n - 1);
        lemma_state_step(module_id, m, n - 1);
    }
}

/// The records grow one by one: the records at item `i` are the first
/// records at every later item, and an accepted item adds its own.
pub proof fn lemma_records_grow(module_id: Seq<char>, m: ModuleView, i: int, n: int)
    requires
        0 <= i <= n <= m.body.len(),
    ensures
        ({
            let early = state_before(module_id, m, i).component_list;
            let late = state_before(module_id, m, n).component_list;
            &&& early.len() <= late.len()
            &&& late.take(early.len() as int) == early
            &&& (i < n && accepted_at(module_id, m, i) ==> early.len() < late.len()
                && late[early.len() as int] == record_at(m, i))
        }),
    decreases n - i,
{
    let early = state_before(module_id, m, i).component_list;
    let late = state_before(module_id, m, n).component_list;
    if i == n {
        assert(late.take(early.len() as int) =~= early);
    } else {
        lemma_records_grow(module_id, m, i, n - 1);
        lemma_state_step(module_id, m, n - 1);
        let mid = state_before(module_id, m, n - 1).component_list;
        assert(late.take(early.len() as int) =~= mid.take(early.len() as int));
        if i == n - 1 {
            assert(mid == early);
        }
    }
}

/// The output of the scan has one item for each item of the module, at the
/// same place: the instrumented form of an accepted item, and every other
/// item as it was.
pub proof fn law_scan_keeps_places(module_id: Seq<char>, m: ModuleView, i: int)
    requires
        0 <= i < m.body.len(),
    ensures
        scanned(module_id, m).module_body.len() == m.body.len(),
        scanned(module_id, m).module_body[i] == if accepted_at(module_id, m, i) {
            probed_item(m.body[i])
        } else {
            m.body[i]
        },
{
    lemma_state_before(module_id, m, m.body.len() as int);
    assert(m.body.take(m.body.len() as int) =~= m.body);
}

/// A module of which no item is accepted as a component is rewritten to
/// itself: nothing is put before, behind or into it.
pub proof fn law_unchanged_without_component(module_id: Seq<char>, m: ModuleView)
    requires
        forall|i: int| 0 <= i < m.body.len() ==> !#[trigger] accepted_at(module_id, m, i),
    ensures
        rewritten(module_id, m) == m,
{
    lemma_state_before(module_id, m, m.body.len() as int);
    assert(m.body.take(m.body.len() as int) =~= m.body);
    assert(scanned(module_id, m).module_body =~= m.body);
}

/// A module in which no examined declaration binds a name that looks like a
/// component is rewritten to itself.
pub proof fn law_no_component_name_no_change(module_id: Seq<char>, m: ModuleView)
    requires
        forall|i: int|
            0 <= i < m.body.len() ==> match #[trigger] item_binding(m.body[i]) {
                Some(name) => !is_component_name(name.sym),
                None => true,
            },
    ensures
        rewritten(module_id, m) == m,
{
    assert forall|i: int| 0 <= i < m.body.len() implies !#[trigger] accepted_at(
        module_id,
        m,
        i,
    ) by {
        assert(match item_binding(m.body[i]) {
            Some(name) => !is_component_name(name.sym),
            None => true,
        });
    }
    law_unchanged_without_component(module_id, m);
}

/// The epilogue of the first `b` components starts with that of the first
/// `a`.
pub proof fn lemma_epilogue_prefix(
    module_id: Seq<char>,
    list: Seq<ComponentMetaView>,
    a: int,
    b: int,
)
    requires
        0 <= a <= b <= list.len(),
    ensures
        epilogue(module_id, list.take(a)).len() <= epilogue(module_id, list.take(b)).len(),
        epilogue(module_id, list.take(b)).take(epilogue(module_id, list.take(a)).len() as int)
            == epilogue(module_id, list.take(a)),
        a < b ==> epilogue(module_id, list.take(a + 1)) == epilogue(module_id, list.take(a))
            + component_epilogue(module_id, list[a]),
        a < b ==> epilogue(module_id, list.take(a + 1)).len() <= epilogue(
            module_id,
            list.take(b),
        ).len(),
    decreases b - a,
{
    let ea = epilogue(module_id, list.take(a));
    let eb = epilogue(module_id, list.take(b));
    if a == b {
        assert(eb.take(ea.len() as int) =~= ea);
    } else {
        assert(list.take(a + 1).drop_last() =~= list.take(a));
        assert(list.take(a + 1).last() == list[a]);
        lemma_epilogue_prefix(module_id, list, a + 1, b);
        let e1 = epilogue(module_id, list.take(a + 1));
        assert(eb.take(ea.len() as int) =~= e1.take(ea.len() as int));
        assert(e1.take(ea.len() as int) =~= ea);
    }
}

/// Where the registration of component `k` stands in the epilogue.
pub open spec fn registration_place(
    module_id: Seq<char>,
    list: Seq<ComponentMetaView>,
    k: int,
) -> int {
    epilogue(module_id, list.take(k)).len() + if list[k].has_hook() {
        1int
    } else {
        0int
    }
}

/// The epilogue holds the registration of each component, and the
/// registrations stand in the order of the components.
pub proof fn lemma_registration_places(
    module_id: Seq<char>,
    list: Seq<ComponentMetaView>,
    k: int,
    l: int,
)
    requires
        0 <= k <= l < list.len(),
    ensures
        0 <= registration_place(module_id, list, k) < epilogue(module_id, list).len(),
        epilogue(module_id, list)[registration_place(module_id, list, k)] == stmt_item(
            call_register_fn_stmt(list[k].name, list[k].span),
        ),
        list[k].has_hook() ==> epilogue(module_id, list)[registration_place(module_id, list, k)
            - 1] == stmt_item(
            call_signature_fn_stmt(
                module_id,
                list[k].name,
                list[k].span,
                list[k].has_custom_hook(),
            ),
        ),
        k < l ==> registration_place(module_id, list, k) < registration_place(module_id, list, l),
{
    let n = list.len() as int;
    assert(list.take(n) =~= list);
    lemma_epilogue_prefix(module_id, list, k, n);
    lemma_epilogue_prefix(module_id, list, k + 1, n);
    let e = epilogue(module_id, list);
    let ek = epilogue(module_id, list.take(k));
    let e1 = epilogue(module_id, list.take(k + 1));
    let ce = component_epilogue(module_id, list[k]);
    let place = registration_place(module_id, list, k);
    assert(e.take(e1.len() as int)[place] == e[place]);
    assert(e1[place] == ce[place - ek.len()]);
    if list[k].has_hook() {
        assert(e.take(e1.len() as int)[place - 1] == e[place - 1]);
        assert(e1[place - 1] == ce[place - 1 - ek.len()]);
    }
    if k < l {
        lemma_epilogue_prefix(module_id, list, k + 1, l);
    }
}

/// The statements behind the module follow the order of the declarations:
/// of two accepted items, the one declared first is registered first,
/// whatever is exported where.
pub proof fn law_registrations_follow_declarations(
    module_id: Seq<char>,
    m: ModuleView,
    i: int,
    j: int,
)
    requires
        0 <= i < j < m.body.len(),
        accepted_at(module_id, m, i),
        accepted_at(module_id, m, j),
    ensures
        ({
            let out = rewritten(module_id, m).body;
            let first = item_binding(m.body[i]).unwrap();
            let second = item_binding(m.body[j]).unwrap();
            exists|p: int, q: int|
                m.body.len() <= p < q < out.len() && out[p] == stmt_item(
                    call_register_fn_stmt(first.sym, first.span),
                ) && out[q] == stmt_item(call_register_fn_stmt(second.sym, second.span))
        }),
{
    let n = m.body.len() as int;
    let end = scanned(module_id, m);
    let list = end.component_list;
    assert(m.body.take(n) =~= m.body);
    lemma_state_before(module_id, m, n);
    lemma_records_grow(module_id, m, i, j);
    lemma_records_grow(module_id, m, i, n);
    lemma_records_grow(module_id, m, j, n);
    let k = state_before(module_id, m, i).component_list.len() as int;
    let l = state_before(module_id, m, j).component_list.len() as int;
    lemma_registration_places(module_id, list, k, l);
    lemma_registration_places(module_id, list, l, l);
    let out = rewritten(module_id, m).body;
    let base = prologue(uses_hooks(list)).len() + end.module_body.len();
    let p = base + registration_place(module_id, list, k);
    let q = base + registration_place(module_id, list, l);
    assert(out[p] == epilogue(module_id, list)[registration_place(module_id, list, k)]);
    assert(out[q] == epilogue(module_id, list)[registration_place(module_id, list, l)]);
}

/// The items of a module keep their places among each other: a module with a
/// component comes out as the prologue, then one item for each of its items
/// in their order, the accepted ones instrumented and the others as they
/// were, then the epilogue and the restoration.
pub proof fn law_items_keep_their_order(module_id: Seq<char>, m: ModuleView, i: int)
    requires
        0 <= i < m.body.len(),
        exists|j: int| 0 <= j < m.body.len() && accepted_at(module_id, m, j),
    ensures
        ({
            let list = scanned(module_id, m).component_list;
            let out = rewritten(module_id, m).body;
            let before = prologue(uses_hooks(list));
            &&& list.len() > 0
            &&& out.len() == before.len() + m.body.len() + epilogue(module_id, list).len()
                + restoration().len()
            &&& out.take(before.len() as int) == before
            &&& out[before.len() + i] == if accepted_at(module_id, m, i) {
                probed_item(m.body[i])
            } else {
                m.body[i]
            }
        }),
{
    lemma_state_before(module_id, m, m.body.len() as int);
    assert(m.body.take(m.body.len() as int) =~= m.body);
    law_scan_keeps_places(module_id, m, i);
    let list = scanned(module_id, m).component_list;
    let out = rewritten(module_id, m).body;
    let before = prologue(uses_hooks(list));
    assert(out.take(before.len() as int) =~= before);
}

/// A name of the exclusion set is never instrumented, wherever and however
/// often it is declared.
pub proof fn law_excluded_name_is_left_alone(module_id: Seq<char>, m: ModuleView, j: int)
    requires
        0 <= j < m.body.len(),
        item_binding(m.body[j]) is Some,
        exclusions(m.body).contains(item_binding(m.body[j]).unwrap().sym),
    ensures
        !accepted_at(module_id, m, j),
        scanned(module_id, m).module_body[j] == m.body[j],
{
    lemma_state_before(module_id, m, j);
    law_scan_keeps_places(module_id, m, j);
}

/// A name that an import binds is never instrumented in the importing
/// module, capitalized or not in the exclusion set or not: no declaration of
/// that name is accepted, and each stays as it was.
pub proof fn law_imported_name_is_left_alone(
    module_id: Seq<char>,
    m: ModuleView,
    i: int,
    k: int,
    j: int,
)
    requires
        0 <= i < m.body.len(),
        0 <= j < m.body.len(),
        imported_name(m.body[i], k) is Some,
        item_binding(m.body[j]) is Some,
        item_binding(m.body[j]).unwrap().sym == imported_name(m.body[i], k).unwrap().sym,
    ensures
        !accepted_at(module_id, m, j),
        scanned(module_id, m).module_body[j] == m.body[j],
{
    let name = item_binding(m.body[j]).unwrap();
    if is_component_name(name.sym) {
        let specifiers = m.body[i]->ModuleDecl_0->Import_0;
        assert(specifier_exclusions(specifiers[k]).contains(name.sym));
        assert(item_exclusions(m.body[i]).contains(name.sym));
        assert(exclusions(m.body).contains(name.sym));
    }
    lemma_state_before(module_id, m, j);
    law_scan_keeps_places(module_id, m, j);
}

/// A class declaration is never instrumented: it stays as it was, and so
/// does every other declaration of its name.
pub proof fn law_class_is_left_alone(module_id: Seq<char>, m: ModuleView, i: int, j: int)
    requires
        0 <= i < m.body.len(),
        0 <= j < m.body.len(),
        class_name(m.body[i]) is Some,
        item_binding(m.body[j]) is Some,
        item_binding(m.body[j]).unwrap().sym == class_name(m.body[i]).unwrap().sym,
    ensures
        !accepted_at(module_id, m, i),
        scanned(module_id, m).module_body[i] == m.body[i],
        !accepted_at(module_id, m, j),
        scanned(module_id, m).module_body[j] == m.body[j],
{
    let name = item_binding(m.body[j]).unwrap();
    if is_component_name(name.sym) {
        assert(item_exclusions(m.body[i]).contains(name.sym));
        assert(exclusions(m.body).contains(name.sym));
    }
    lemma_state_before(module_id, m, j);
    law_scan_keeps_places(module_id, m, i);
    law_scan_keeps_places(module_id, m, j);
}

/// A class declaration stays as it was, whatever else the module declares.
pub proof fn law_class_is_not_instrumented(module_id: Seq<char>, m: ModuleView, i: int)
    requires
        0 <= i < m.body.len(),
        class_name(m.body[i]) is Some,
    ensures
        !accepted_at(module_id, m, i),
        scanned(module_id, m).module_body[i] == m.body[i],
{
    law_scan_keeps_places(module_id, m, i);
}

/// A declaration of several variables, or of none, is never examined: it
/// stays as it was, even if one of its declarators alone would be accepted.
pub proof fn law_several_declarators_are_left_alone(module_id: Seq<char>, m: ModuleView, i: int)
    requires
        0 <= i < m.body.len(),
        declarators_of(m.body[i]) is Some,
        declarators_of(m.body[i]).unwrap().len() != 1,
    ensures
        !accepted_at(module_id, m, i),
        scanned(module_id, m).module_body[i] == m.body[i],
{
    law_scan_keeps_places(module_id, m, i);
}

/// An accepted component gets the probe in front of each of its blocks, and
/// its record holds the hook calls that its blocks make in their direct
/// statements.
pub proof fn law_component_is_probed_and_counted(
    module_id: Seq<char>,
    m: ModuleView,
    i: int,
    kind: HookKind,
)
    requires
        0 <= i < m.body.len(),
        accepted_at(module_id, m, i),
    ensures
        scanned(module_id, m).module_body[i] == probed_item(m.body[i]),
        exists|k: int|
            0 <= k < scanned(module_id, m).component_list.len() && scanned(
                module_id,
                m,
            ).component_list[k] == record_at(m, i),
        findings(m.body[i]).count(kind) == counted(0, total_calls(item_blocks(m.body[i]), kind)),
{
    let n = m.body.len() as int;
    law_scan_keeps_places(module_id, m, i);
    assert(m.body.take(n) =~= m.body);
    lemma_records_grow(module_id, m, i, n);
    lemma_after(
        ReactRefreshRuntimeComponent {
            is_empty: false,
            builtin_hook_count: 0,
            custom_hook_count: 0,
        },
        item_blocks(m.body[i]),
        kind,
    );
}

/// A component that calls a hook is signed behind the module, just before it
/// is registered: with `false` if all its hooks are React's own, and with
/// `true` if one of them is not.
pub proof fn law_component_with_hooks_is_signed(module_id: Seq<char>, m: ModuleView, i: int)
    requires
        0 <= i < m.body.len(),
        accepted_at(module_id, m, i),
        total_calls(item_blocks(m.body[i]), HookKind::Builtin) + total_calls(
            item_blocks(m.body[i]),
            HookKind::Custom,
        ) > 0,
    ensures
        ({
            let out = rewritten(module_id, m).body;
            let name = item_binding(m.body[i]).unwrap();
            let custom = total_calls(item_blocks(m.body[i]), HookKind::Custom) > 0;
            exists|p: int, q: int|
                m.body.len() <= p && q == p + 1 && q < out.len() && out[p] == stmt_item(
                    call_signature_fn_stmt(module_id, name.sym, name.span, custom),
                ) && out[q] == stmt_item(call_register_fn_stmt(name.sym, name.span))
        }),
{
    let n = m.body.len() as int;
    let end = scanned(module_id, m);
    let list = end.component_list;
    assert(m.body.take(n) =~= m.body);
    lemma_state_before(module_id, m, n);
    lemma_records_grow(module_id, m, i, n);
    let zero = ReactRefreshRuntimeComponent {
        is_empty: false,
        builtin_hook_count: 0,
        custom_hook_count: 0,
    };
    lemma_after(zero, item_blocks(m.body[i]), HookKind::Builtin);
    lemma_after(zero, item_blocks(m.body[i]), HookKind::Custom);
    let k = state_before(module_id, m, i).component_list.len() as int;
    assert(list[k] == record_at(m, i));
    assert(list[k].has_hook());
    lemma_registration_places(module_id, list, k, k);
    let out = rewritten(module_id, m).body;
    let base = prologue(uses_hooks(list)).len() + end.module_body.len();
    let p = base + registration_place(module_id, list, k) - 1;
    let q = p + 1;
    assert(out[p] == epilogue(module_id, list)[registration_place(module_id, list, k) - 1]);
    assert(out[q] == epilogue(module_id, list)[registration_place(module_id, list, k)]);
}

/// A declaration whose last block holds no statement is no component: it
/// stays as it was.
pub proof fn law_empty_body_is_rejected(module_id: Seq<char>, m: ModuleView, i: int)
    requires
        0 <= i < m.body.len(),
        item_blocks(m.body[i]).len() > 0,
        item_blocks(m.body[i]).last().stmts.len() == 0,
    ensures
        !accepted_at(module_id, m, i),
        scanned(module_id, m).module_body[i] == m.body[i],
{
    lemma_after(
        ReactRefreshRuntimeComponent {
            is_empty: false,
            builtin_hook_count: 0,
            custom_hook_count: 0,
        },
        item_blocks(m.body[i]),
        HookKind::Builtin,
    );
    law_scan_keeps_places(module_id, m, i);
}

/// A default export without a name of its own, function or expression, is
/// never examined: it stays as it was.
pub proof fn law_anonymous_default_export_is_left_alone(
    module_id: Seq<char>,
    m: ModuleView,
    i: int,
)
    requires
        0 <= i < m.body.len(),
        m.body[i] is ModuleDecl,
        match m.body[i]->ModuleDecl_0 {
            ModuleDeclView::ExportDefaultDecl(DefaultDeclView::Fn(name, _)) => name is None,
            ModuleDeclView::ExportDefaultDecl(DefaultDeclView::Other) => true,
            ModuleDeclView::Other => true,
            _ => false,
        },
    ensures
        !accepted_at(module_id, m, i),
        scanned(module_id, m).module_body[i] == m.body[i],
{
    law_scan_keeps_places(module_id, m, i);
}

/// No name is accepted twice: two accepted items bind different names.
pub proof fn law_no_name_is_accepted_twice(module_id: Seq<char>, m: ModuleView, i: int, j: int)
    requires
        0 <= i < j < m.body.len(),
        accepted_at(module_id, m, i),
        accepted_at(module_id, m, j),
    ensures
        item_binding(m.body[i]).unwrap().sym != item_binding(m.body[j]).unwrap().sym,
{
    lemma_records_grow(module_id, m, i, j);
    lemma_state_before(module_id, m, j);
    let early = state_before(module_id, m, i).component_list;
    let late = state_before(module_id, m, j).component_list;
    assert(late[early.len() as int] == record_at(m, i));
    assert(state_before(module_id, m, j).component_names.contains(late[early.len() as int].name));
}

/// Only an item that is classified as a component is accepted as one.
pub proof fn law_accepted_item_has_component_shape(module_id: Seq<char>, m: ModuleView, i: int)
    requires
        0 <= i < m.body.len(),
        accepted_at(module_id, m, i),
    ensures
        item_shape(m.body[i]) != ComponentShape::NotAComponent,
{
}

/// In the instrumented form of a list of blocks, each block starts with the
/// probe, and its own statements follow, instrumented in the same way.
pub proof fn law_probe_is_first_statement(blocks: Seq<BlockView>, k: int)
    requires
        0 <= k < blocks.len(),
    ensures
        probed_blocks(blocks).len() == blocks.len(),
        probed_blocks(blocks)[k].stmts[0] == probe_stmt(),
        probed_blocks(blocks)[k].stmts.skip(1) == probed_stmts(blocks[k].stmts),
{
    assert(probed_blocks(blocks)[k].stmts.skip(1) =~= probed_stmts(blocks[k].stmts));
}

/// The last of a list of blocks is the block that the walk analyzes last:
/// the body of a function decides whether the function is empty.
pub proof fn law_last_block_is_analyzed_last(blocks: Seq<BlockView>)
    requires
        blocks.len() > 0,
    ensures
        blocks_blocks(blocks).len() > 0,
        blocks_blocks(blocks).last() == blocks.last(),
{
    let last = blocks.last();
    assert(block_blocks(last) == stmts_blocks(last.stmts).push(last));
    assert(blocks_blocks(blocks) == blocks_blocks(blocks.drop_last()) + block_blocks(last));
}

/// A hook call counts wherever it stands as a direct statement of a block.
pub proof fn law_hook_call_is_counted(blocks: Seq<BlockView>, k: int, j: int, kind: HookKind)
    requires
        0 <= k < blocks.len(),
        0 <= j < blocks[k].stmts.len(),
    ensures
        stmt_calls(blocks[k].stmts[j], kind) <= direct_calls(blocks[k].stmts, kind),
        direct_calls(blocks[k].stmts, kind) <= total_calls(blocks, kind),
    decreases blocks.len(), blocks[k].stmts.len(),
{
    let stmts = blocks[k].stmts;
    if k < blocks.len() - 1 {
        law_hook_call_is_counted(blocks.drop_last(), k, j, kind);
    } else if j < stmts.len() - 1 {
        let shorter = blocks.update(k, BlockView { stmts: stmts.drop_last() });
        law_hook_call_is_counted(shorter, k, j, kind);
    }
}

} // verus!
