//! The exclusion collector: the names that are never instrumented, because
//! they are imported from another module or declared as classes.
use crate::names::NameSet;
use crate::syntax::{
    specifiers_view, Decl, DeclView, Ident, ImportSpecifier, ImportSpecifierView, Module,
    ModuleDecl, ModuleDeclView, ModuleItem, ModuleItemView, Stmt, StmtView,
};
use crate::utils::{get_name_from_ident, is_component_name, is_react_component_name};
use vstd::prelude::*;

verus! {

/// The name that an import specifier excludes: the local name of a default or
/// named import, if it looks like a component.
pub open spec fn specifier_exclusions(s: ImportSpecifierView) -> Set<Seq<char>> {
    match s {
        ImportSpecifierView::Named(local) => name_exclusions(local.sym),
        ImportSpecifierView::Default(local) => name_exclusions(local.sym),
        ImportSpecifierView::Namespace(_) => Set::empty(),
    }
}

/// The names that the specifiers of one import exclude.
pub open spec fn import_exclusions(specifiers: Seq<ImportSpecifierView>) -> Set<Seq<char>> {
    Set::new(
        |name: Seq<char>|
            exists|i: int|
                0 <= i < specifiers.len() && specifier_exclusions(specifiers[i]).contains(name),
    )
}

/// What the declaration or the import of `name` excludes: the name, if it
/// looks like a component.
pub open spec fn name_exclusions(name: Seq<char>) -> Set<Seq<char>> {
    if is_component_name(name) {
        set![name]
    } else {
        Set::empty()
    }
}

/// The names that one top-level item excludes. Only imports and class
/// declarations, exported or not, exclude any; a class nested in other code
/// does not.
pub open spec fn item_exclusions(item: ModuleItemView) -> Set<Seq<char>> {
    match item {
        ModuleItemView::ModuleDecl(ModuleDeclView::Import(specifiers)) => import_exclusions(
            specifiers,
        ),
        ModuleItemView::ModuleDecl(ModuleDeclView::ExportDecl(DeclView::Class(name, _))) =>
            name_exclusions(name.sym),
        ModuleItemView::Stmt(StmtView::Decl(DeclView::Class(name, _))) => name_exclusions(
            name.sym,
        ),
        _ => Set::empty(),
    }
}

/// The exclusion set of a module.
pub open spec fn exclusions(items: Seq<ModuleItemView>) -> Set<Seq<char>> {
    Set::new(
        |name: Seq<char>|
            exists|i: int| 0 <= i < items.len() && item_exclusions(items[i]).contains(name),
    )
}

/// Visit top-level to find external and class components.
pub struct IgnoreIdentifierCollector {
    black_list: NameSet,
}

impl View for IgnoreIdentifierCollector {
    type V = Set<Seq<char>>;

    closed spec fn view(&self) -> Set<Seq<char>> {
        self.black_list@
    }
}

impl IgnoreIdentifierCollector {
    /// A collector that has collected nothing.
    pub fn default() -> (r: IgnoreIdentifierCollector)
        ensures
            r@ == Set::<Seq<char>>::empty(),
    {
        IgnoreIdentifierCollector { black_list: NameSet::new() }
    }

    /// Excludes `identifier`.
    pub fn add(&mut self, identifier: String)
        ensures
            final(self)@ == old(self)@.insert(identifier@),
    {
        self.black_list.insert(identifier);
    }

    /// The names collected so far.
    pub fn get_black_list(&self) -> (r: NameSet)
        ensures
            r@ == self@,
    {
        self.black_list.clone()
    }

    /// Excludes the name `local` if it looks like a component.
    fn visit_local(&mut self, local: &Ident)
        ensures
            final(self)@ == old(self)@.union(name_exclusions(local@.sym)),
    {
        let identifier = get_name_from_ident(local);
        if is_react_component_name(&identifier) {
            self.add(identifier);
        }
        assert(self@ =~= old(self)@.union(name_exclusions(local@.sym)));
    }

    /// Ignore external components.
    ///
    /// - `import Component from '...';`
    /// - `import { Component } from '...';`
    pub fn visit_import_specifiers(&mut self, import_specifiers: &Vec<ImportSpecifier>)
        ensures
            final(self)@ == old(self)@.union(
                import_exclusions(specifiers_view(*import_specifiers)),
            ),
    {
        let ghost sv = specifiers_view(*import_specifiers);
        let mut i: usize = 0;
        while i < import_specifiers.len()
            invariant
                i <= import_specifiers.len(),
                sv == specifiers_view(*import_specifiers),
                self@ == old(self)@.union(import_exclusions(sv.take(i as int))),
            decreases import_specifiers.len() - i,
        {
            let ghost before = self@;
            match &import_specifiers[i] {
                ImportSpecifier::Named(local) => {
                    self.visit_local(local);
                },
                ImportSpecifier::Default(local) => {
                    self.visit_local(local);
                },
                ImportSpecifier::Namespace(_) => {},
            }
            proof {
                assert(self@ =~= before.union(specifier_exclusions(sv[i as int])));
                lemma_import_exclusions_step(sv, i as int);
            }
            i += 1;
        }
        assert(sv.take(i as int) =~= sv);
    }

    /// Ignore class component.
    pub fn visit_class_decl(&mut self, ident: &Ident)
        ensures
            final(self)@ == old(self)@.union(name_exclusions(ident@.sym)),
    {
        self.visit_local(ident);
    }

    /// Collects what one top-level item excludes.
    pub fn visit_module_item(&mut self, item: &ModuleItem)
        ensures
            final(self)@ == old(self)@.union(item_exclusions(item@)),
    {
        match item {
            ModuleItem::ModuleDecl(ModuleDecl::Import(specifiers)) => {
                self.visit_import_specifiers(specifiers);
            },
            ModuleItem::ModuleDecl(ModuleDecl::ExportDecl(Decl::Class(name, _))) => {
                self.visit_class_decl(name);
            },
            ModuleItem::Stmt(Stmt::Decl(Decl::Class(name, _))) => {
                self.visit_class_decl(name);
            },
            _ => {
                assert(self@ =~= old(self)@.union(item_exclusions(item@)));
            },
        }
    }

    /// Collects the exclusion set of a module: one pass over its top-level
    /// items.
    pub fn visit_module(&mut self, module: &Module)
        ensures
            final(self)@ == old(self)@.union(exclusions(module@.body)),
    {
        let ghost items = module@.body;
        let mut i: usize = 0;
        while i < module.body.len()
            invariant
                i <= module.body.len(),
                items == module@.body,
                self@ == old(self)@.union(exclusions(items.take(i as int))),
            decreases module.body.len() - i,
        {
            self.visit_module_item(&module.body[i]);
            proof {
                lemma_exclusions_step(items, i as int);
            }
            i += 1;
        }
        assert(items.take(i as int) =~= items);
    }
}

/// One more specifier adds what it excludes.
pub proof fn lemma_import_exclusions_step(specifiers: Seq<ImportSpecifierView>, i: int)
    requires
        0 <= i < specifiers.len(),
    ensures
        import_exclusions(specifiers.take(i + 1)) == import_exclusions(specifiers.take(i)).union(
            specifier_exclusions(specifiers[i]),
        ),
{
    let more = specifiers.take(i + 1);
    let less = specifiers.take(i);
    let a = import_exclusions(more);
    let b = import_exclusions(less).union(specifier_exclusions(specifiers[i]));
    assert forall|n: Seq<char>| a.contains(n) implies b.contains(n) by {
        let k = choose|k: int| 0 <= k < more.len() && specifier_exclusions(more[k]).contains(n);
        if k < i {
            assert(specifier_exclusions(less[k]).contains(n));
        }
    }
    assert forall|n: Seq<char>| b.contains(n) implies a.contains(n) by {
        if specifier_exclusions(specifiers[i]).contains(n) {
            assert(specifier_exclusions(more[i]).contains(n));
        } else {
            let k = choose|k: int| 0 <= k < less.len() && specifier_exclusions(less[k]).contains(n);
            assert(specifier_exclusions(more[k]).contains(n));
        }
    }
    assert(a =~= b);
}

/// One more item adds what it excludes.
pub proof fn lemma_exclusions_step(items: Seq<ModuleItemView>, i: int)
    requires
        0 <= i < items.len(),
    ensures
        exclusions(items.take(i + 1)) == exclusions(items.take(i)).union(
            item_exclusions(items[i]),
        ),
{
    let more = items.take(i + 1);
    let less = items.take(i);
    let a = exclusions(more);
    let b = exclusions(less).union(item_exclusions(items[i]));
    assert forall|n: Seq<char>| a.contains(n) implies b.contains(n) by {
        let k = choose|k: int| 0 <= k < more.len() && item_exclusions(more[k]).contains(n);
        if k < i {
            assert(item_exclusions(less[k]).contains(n));
        }
    }
    assert forall|n: Seq<char>| b.contains(n) implies a.contains(n) by {
        if item_exclusions(items[i]).contains(n) {
            assert(item_exclusions(more[i]).contains(n));
        } else {
            let k = choose|k: int| 0 <= k < less.len() && item_exclusions(less[k]).contains(n);
            assert(item_exclusions(more[k]).contains(n));
        }
    }
    assert(a =~= b);
}

/// Returns a collector for the exclusion set of a module.
pub fn black_list_collector() -> (r: IgnoreIdentifierCollector)
    ensures
        r@ == Set::<Seq<char>>::empty(),
{
    IgnoreIdentifierCollector::default()
}

} // verus!
