use react_refresh::names::NameSet;
use react_refresh::plugin::{
    check_environment, swc_react_refresh_plugin, PluginError, ReactRefreshOptions,
};
use react_refresh::syntax::{
    Block, Decl, DefaultDecl, Expr, ExprOrSpread, Ident, ImportSpecifier, Module, ModuleDecl,
    ModuleItem, Pat, Span, Stmt, VarDeclKind, VarDeclarator,
};
use react_refresh::classifier::{
    classify, classify_decl, classify_declarator, classify_item, ComponentShape,
};
use react_refresh::transformer::{react_refresh, ComponentMeta, ReactRefreshRuntime};
use react_refresh::utils::{
    arg_expr, assign_expr, bool_expr, call_expr, decl_var_and_assign_stmt, get_name_from_ident,
    ident, ident_expr, ident_str, ident_str_expr, is_react_component_name, obj_prop_expr, str_expr,
    to_stmt,
};
use react_refresh::visitor::{black_list_collector, IgnoreIdentifierCollector};

fn dummy() -> Span {
    Span { lo: 0, hi: 0, ctxt: 0 }
}

fn at(sym: &str, lo: u32) -> Ident {
    Ident { sym: sym.to_string(), span: Span { lo, hi: lo + 1, ctxt: 2 } }
}

fn sorted(set: &NameSet) -> Vec<String> {
    let mut names = set.to_vec();
    names.sort();
    names
}

#[test]
fn component_name_starts_with_an_uppercase_character() {
    assert!(is_react_component_name(&"MyComponent".to_string()));
    assert!(!is_react_component_name(&"myComponent".to_string()));
    assert!(is_react_component_name(&"A".to_string()));
    assert!(is_react_component_name(&"Émile".to_string()));
    assert!(!is_react_component_name(&"émile".to_string()));
    assert!(!is_react_component_name(&"_Private".to_string()));
    assert!(!is_react_component_name(&"$Foo".to_string()));
    assert!(!is_react_component_name(&"1A".to_string()));
    assert!(!is_react_component_name(&"".to_string()));
}

#[test]
fn span_dummy_is_the_origin() {
    assert_eq!(Span::dummy(), Span { lo: 0, hi: 0, ctxt: 0 });
}

#[test]
fn identifier_builders() {
    assert_eq!(ident("x".to_string()), Ident { sym: "x".to_string(), span: dummy() });
    assert_eq!(
        ident_str(&"x".to_string(), Span { lo: 4, hi: 5, ctxt: 2 }),
        Ident { sym: "x".to_string(), span: Span { lo: 4, hi: 5, ctxt: 2 } },
    );
    assert_eq!(
        ident_expr("x".to_string()),
        Expr::Ident(Ident { sym: "x".to_string(), span: dummy() }),
    );
    assert_eq!(
        ident_str_expr(&"x".to_string(), Span { lo: 4, hi: 5, ctxt: 2 }),
        Expr::Ident(Ident { sym: "x".to_string(), span: Span { lo: 4, hi: 5, ctxt: 2 } }),
    );
    assert_eq!(get_name_from_ident(&at("Name", 3)), "Name".to_string());
}

#[test]
fn expression_builders() {
    assert_eq!(str_expr(&"a:b".to_string()), Expr::Str("a:b".to_string()));
    assert_eq!(bool_expr(true), Expr::Bool(true));
    assert_eq!(bool_expr(false), Expr::Bool(false));
    assert_eq!(
        arg_expr(Expr::Bool(true)),
        ExprOrSpread { spread: None, expr: Box::new(Expr::Bool(true)) },
    );
    assert_eq!(
        obj_prop_expr(Expr::Ident(at("obj", 1)), at("prop", 5)),
        Expr::Member(Box::new(Expr::Ident(at("obj", 1))), at("prop", 5)),
    );
    assert_eq!(
        assign_expr(Expr::Ident(at("left", 1)), Expr::Bool(false)),
        Expr::Assign(Box::new(Expr::Ident(at("left", 1))), Box::new(Expr::Bool(false))),
    );
    assert_eq!(
        call_expr(Expr::Ident(at("f", 1)), vec![arg_expr(Expr::Bool(true)), arg_expr(Expr::Bool(false))]),
        Expr::Call(
            Box::new(Expr::Ident(at("f", 1))),
            vec![
                ExprOrSpread { spread: None, expr: Box::new(Expr::Bool(true)) },
                ExprOrSpread { spread: None, expr: Box::new(Expr::Bool(false)) },
            ],
        ),
    );
}

#[test]
fn statement_builders() {
    assert_eq!(to_stmt(Expr::Bool(true)), Stmt::Expr(Expr::Bool(true)));
    assert_eq!(
        decl_var_and_assign_stmt(at("name", 4), Expr::Bool(true)),
        Stmt::Decl(Decl::Var(
            VarDeclKind::Var,
            vec![VarDeclarator { name: Pat::Ident(at("name", 4)), init: Some(Box::new(Expr::Bool(true))) }],
        )),
    );
}

#[test]
fn generated_statements() {
    let runtime = ReactRefreshRuntime::default("src/App.tsx".to_string());
    let made = |sym: &str| Ident { sym: sym.to_string(), span: dummy() };
    let global = |prop: &str| Expr::Member(Box::new(Expr::Ident(made("global"))), made(prop));
    let call = |callee: Expr, args: Vec<Expr>| {
        Expr::Call(
            Box::new(callee),
            args.into_iter().map(|e| ExprOrSpread { spread: None, expr: Box::new(e) }).collect(),
        )
    };
    let span = Span { lo: 7, hi: 10, ctxt: 2 };
    let app = || Expr::Ident(Ident { sym: "App".to_string(), span });

    assert_eq!(runtime.get_id(&"App".to_string()), "src/App.tsx:App");
    assert_eq!(react_refresh(String::new()).get_id(&String::new()), ":");
    assert_eq!(
        runtime.get_assign_temp_ref_fn_stmt("tmp".to_string(), "$prop$".to_string()),
        Stmt::Decl(Decl::Var(
            VarDeclKind::Var,
            vec![VarDeclarator { name: Pat::Ident(made("tmp")), init: Some(Box::new(global("$prop$"))) }],
        )),
    );
    assert_eq!(
        runtime.get_assign_register_fn_stmt(),
        Stmt::Expr(Expr::Assign(
            Box::new(global("$RefreshReg$")),
            Box::new(call(
                Expr::Member(Box::new(global("$RefreshRuntime$")), made("getRegisterFunction")),
                vec![],
            )),
        )),
    );
    assert_eq!(
        runtime.get_assign_signature_fn_stmt(),
        Stmt::Expr(Expr::Assign(
            Box::new(global("$RefreshSig$")),
            Box::new(call(
                Expr::Member(
                    Box::new(global("$RefreshRuntime$")),
                    made("getCreateSignatureFunction"),
                ),
                vec![],
            )),
        )),
    );
    assert_eq!(
        runtime.get_create_signature_fn_stmt(),
        Stmt::Decl(Decl::Var(
            VarDeclKind::Var,
            vec![VarDeclarator {
                name: Pat::Ident(made("__s")),
                init: Some(Box::new(call(global("$RefreshSig$"), vec![]))),
            }],
        )),
    );
    assert_eq!(
        runtime.get_call_signature_fn_stmt(&"App".to_string(), span, true),
        Stmt::Expr(call(
            Expr::Ident(made("__s")),
            vec![app(), Expr::Str("src/App.tsx:App".to_string()), Expr::Bool(true)],
        )),
    );
    assert_eq!(
        runtime.get_call_register_fn_stmt(&"App".to_string(), span),
        Stmt::Expr(call(global("$RefreshReg$"), vec![app(), Expr::Str("App".to_string())])),
    );
    assert_eq!(
        runtime.get_call_accept_stmt(&"App".to_string(), span),
        Stmt::Expr(call(
            Expr::Member(
                Box::new(call(
                    Expr::Member(Box::new(global("$RefreshRuntime$")), made("getContext")),
                    vec![app()],
                )),
                made("accept"),
            ),
            vec![],
        )),
    );
    assert_eq!(
        runtime.get_restore_ref_fn_stmt("$prop$".to_string(), "tmp".to_string()),
        Stmt::Expr(Expr::Assign(Box::new(global("$prop$")), Box::new(Expr::Ident(made("tmp"))))),
    );
}

#[test]
fn name_set_holds_each_name_once() {
    let mut set = NameSet::new();
    assert!(set.is_empty());
    assert!(!set.contains(&"A".to_string()));
    set.insert("A".to_string());
    set.insert("B".to_string());
    set.insert("A".to_string());
    assert!(!set.is_empty());
    assert!(set.contains(&"A".to_string()));
    assert!(set.contains(&"B".to_string()));
    assert!(!set.contains(&"a".to_string()));
    assert_eq!(sorted(&set), vec!["A".to_string(), "B".to_string()]);
    let copy = set.clone();
    set.clear();
    assert!(set.is_empty());
    assert_eq!(set.to_vec(), Vec::<String>::new());
    assert_eq!(sorted(&copy), vec!["A".to_string(), "B".to_string()]);
}

#[test]
fn collector_starts_empty() {
    assert!(black_list_collector().get_black_list().is_empty());
    assert!(IgnoreIdentifierCollector::default().get_black_list().is_empty());
}

#[test]
fn collector_takes_component_like_imports() {
    let mut collector = black_list_collector();
    collector.visit_import_specifiers(&vec![
        ImportSpecifier::Default(at("RootComponent", 7)),
        ImportSpecifier::Named(at("Button", 30)),
        ImportSpecifier::Named(at("useTheme", 40)),
        ImportSpecifier::Namespace(at("Everything", 50)),
        ImportSpecifier::Default(at("react", 70)),
        ImportSpecifier::Named(at("Button", 90)),
    ]);
    assert_eq!(
        sorted(&collector.get_black_list()),
        vec!["Button".to_string(), "RootComponent".to_string()],
    );
}

#[test]
fn collector_takes_component_like_classes() {
    let mut collector = black_list_collector();
    collector.visit_class_decl(&at("ClassComponent", 6));
    collector.visit_class_decl(&at("helper", 60));
    collector.add("anything".to_string());
    assert_eq!(
        sorted(&collector.get_black_list()),
        vec!["ClassComponent".to_string(), "anything".to_string()],
    );
}

#[test]
fn collector_visits_the_top_level_only() {
    let mut collector = black_list_collector();
    collector.visit_module(&Module {
        body: vec![
            ModuleItem::ModuleDecl(ModuleDecl::Import(vec![ImportSpecifier::Named(at("Text", 9))])),
            ModuleItem::Stmt(Stmt::Decl(Decl::Class(at("Plain", 30), vec![]))),
            ModuleItem::ModuleDecl(ModuleDecl::ExportDecl(Decl::Class(at("Exported", 60), vec![]))),
            ModuleItem::ModuleDecl(ModuleDecl::ExportDefaultDecl(DefaultDecl::Other)),
            ModuleItem::ModuleDecl(ModuleDecl::Other),
            // function Outer() { class Inner {} }
            ModuleItem::Stmt(Stmt::Decl(Decl::Fn(
                at("Outer", 90),
                vec![Block { stmts: vec![Stmt::Decl(Decl::Class(at("Inner", 110), vec![]))] }],
            ))),
            ModuleItem::Stmt(Stmt::Expr(Expr::Ident(at("Loose", 130)))),
        ],
    });
    assert_eq!(
        sorted(&collector.get_black_list()),
        vec!["Exported".to_string(), "Plain".to_string(), "Text".to_string()],
    );
    collector.visit_module_item(&ModuleItem::Stmt(Stmt::Decl(Decl::Class(at("Later", 150), vec![]))));
    assert!(collector.get_black_list().contains(&"Later".to_string()));
}

fn declarator(name: Pat, init: Option<Expr>) -> VarDeclarator {
    VarDeclarator { name, init: init.map(Box::new) }
}

#[test]
fn declarators_are_classified_by_their_initialiser() {
    let named = |init: Option<Expr>| declarator(Pat::Ident(at("x", 4)), init);
    let call = Expr::Call(Box::new(Expr::Ident(at("memo", 9))), vec![]);
    assert_eq!(
        classify_declarator(&named(Some(Expr::Fn(None, vec![])))),
        (ComponentShape::FunctionComponent, Some(&at("x", 4))),
    );
    assert_eq!(
        classify_declarator(&named(Some(Expr::Arrow(vec![])))),
        (ComponentShape::ArrowComponent, Some(&at("x", 4))),
    );
    assert_eq!(
        classify_declarator(&named(Some(call))),
        (ComponentShape::HocWrappedComponent, Some(&at("x", 4))),
    );
    assert_eq!(
        classify_declarator(&named(Some(Expr::Ident(at("y", 9))))),
        (ComponentShape::NotAComponent, None),
    );
    assert_eq!(classify_declarator(&named(None)), (ComponentShape::NotAComponent, None));
    assert_eq!(
        classify_declarator(&declarator(Pat::Other, Some(Expr::Arrow(vec![])))),
        (ComponentShape::NotAComponent, None),
    );
}

#[test]
fn declarations_are_classified_by_their_shape() {
    assert_eq!(
        classify_decl(&Decl::Fn(at("f", 9), vec![])),
        (ComponentShape::FunctionComponent, Some(&at("f", 9))),
    );
    assert_eq!(classify_decl(&Decl::Class(at("K", 6), vec![])), (ComponentShape::NotAComponent, None));
    assert_eq!(classify_decl(&Decl::Var(VarDeclKind::Let, vec![])), (ComponentShape::NotAComponent, None));
    assert_eq!(
        classify_decl(&Decl::Var(
            VarDeclKind::Let,
            vec![declarator(Pat::Ident(at("a", 4)), Some(Expr::Arrow(vec![])))],
        )),
        (ComponentShape::ArrowComponent, Some(&at("a", 4))),
    );
    assert_eq!(
        classify_decl(&Decl::Var(
            VarDeclKind::Let,
            vec![
                declarator(Pat::Ident(at("a", 4)), Some(Expr::Arrow(vec![]))),
                declarator(Pat::Ident(at("b", 20)), Some(Expr::Arrow(vec![]))),
            ],
        )),
        (ComponentShape::NotAComponent, None),
    );
}

#[test]
fn items_are_classified_by_shape_and_casing() {
    let arrow = |name: &str| {
        Decl::Var(
            VarDeclKind::Const,
            vec![declarator(Pat::Ident(at(name, 6)), Some(Expr::Arrow(vec![])))],
        )
    };
    assert_eq!(classify(&ModuleItem::Stmt(Stmt::Decl(arrow("Foo")))), ComponentShape::ArrowComponent);
    assert_eq!(classify(&ModuleItem::Stmt(Stmt::Decl(arrow("foo")))), ComponentShape::NotAComponent);
    assert_eq!(
        classify(&ModuleItem::ModuleDecl(ModuleDecl::ExportDecl(Decl::Fn(at("Foo", 16), vec![])))),
        ComponentShape::FunctionComponent,
    );
    assert_eq!(
        classify(&ModuleItem::ModuleDecl(ModuleDecl::ExportDecl(Decl::Var(
            VarDeclKind::Const,
            vec![declarator(
                Pat::Ident(at("Foo", 13)),
                Some(Expr::Call(Box::new(Expr::Ident(at("memo", 19))), vec![])),
            )],
        )))),
        ComponentShape::HocWrappedComponent,
    );
    assert_eq!(
        classify(&ModuleItem::ModuleDecl(ModuleDecl::ExportDefaultDecl(DefaultDecl::Fn(
            Some(at("Foo", 24)),
            vec![],
        )))),
        ComponentShape::FunctionComponent,
    );
    assert_eq!(
        classify(&ModuleItem::ModuleDecl(ModuleDecl::ExportDefaultDecl(DefaultDecl::Fn(None, vec![])))),
        ComponentShape::NotAComponent,
    );
    assert_eq!(
        classify(&ModuleItem::ModuleDecl(ModuleDecl::ExportDefaultDecl(DefaultDecl::Other))),
        ComponentShape::NotAComponent,
    );
    assert_eq!(classify(&ModuleItem::ModuleDecl(ModuleDecl::Other)), ComponentShape::NotAComponent);
    assert_eq!(
        classify(&ModuleItem::ModuleDecl(ModuleDecl::Import(vec![ImportSpecifier::Default(at("Foo", 7))]))),
        ComponentShape::NotAComponent,
    );
    assert_eq!(
        classify(&ModuleItem::Stmt(Stmt::Decl(Decl::Class(at("Foo", 6), vec![])))),
        ComponentShape::NotAComponent,
    );
    assert_eq!(classify(&ModuleItem::Stmt(Stmt::Other(vec![]))), ComponentShape::NotAComponent);
    // The shape alone does not look at the casing of the name.
    assert_eq!(
        classify_item(&ModuleItem::Stmt(Stmt::Decl(arrow("foo")))),
        (ComponentShape::ArrowComponent, Some(&at("foo", 6))),
    );
    assert_eq!(
        classify_item(&ModuleItem::ModuleDecl(ModuleDecl::ExportDefaultDecl(DefaultDecl::Fn(
            Some(at("foo", 24)),
            vec![],
        )))),
        (ComponentShape::FunctionComponent, Some(&at("foo", 24))),
    );
    assert_eq!(
        classify_item(&ModuleItem::ModuleDecl(ModuleDecl::Other)),
        (ComponentShape::NotAComponent, None),
    );
}

#[test]
fn rewriter_steps() {
    let item = |name: &str, stmts: Vec<Stmt>| {
        ModuleItem::Stmt(Stmt::Decl(Decl::Fn(at(name, 9), vec![Block { stmts }])))
    };
    let mut runtime = react_refresh("test".to_string());
    runtime.prepare_before_fold_module(&Module {
        body: vec![ModuleItem::Stmt(Stmt::Decl(Decl::Class(at("Excluded", 6), vec![])))],
    });
    // A component: folded.
    assert!(runtime.fold_module_item(&item("Foo", vec![Stmt::Other(vec![])])));
    // The same name again, an excluded name, a lower-case name, an empty body: not folded.
    assert!(!runtime.fold_module_item(&item("Foo", vec![Stmt::Other(vec![])])));
    assert!(!runtime.fold_module_item(&item("Excluded", vec![Stmt::Other(vec![])])));
    assert!(!runtime.fold_module_item(&item("bar", vec![Stmt::Other(vec![])])));
    assert!(!runtime.fold_module_item(&item("Empty", vec![])));
    // An item that is no declaration.
    assert!(!runtime.fold_module_item(&ModuleItem::Stmt(Stmt::Other(vec![]))));
    // The binding is what the caller says it is.
    let any = ModuleItem::Stmt(Stmt::Other(vec![Block { stmts: vec![Stmt::Other(vec![])] }]));
    assert!(runtime.fold_if_react_component(&any, &at("Named", 1)));
    assert!(!runtime.fold_if_react_component(&any, &at("Named", 1)));
    assert!(runtime.fold_var_declarator(
        &any,
        &declarator(Pat::Ident(at("Arrow", 6)), Some(Expr::Arrow(vec![]))),
    ));
    assert!(!runtime.fold_var_declarator(&any, &declarator(Pat::Ident(at("Number", 6)), Some(Expr::Bool(true)))));
    assert!(runtime.fold_if_component_like(&any, &at("lower", 1), true));
    assert!(!runtime.fold_if_component_like(&any, &at("Upper", 1), false));
    assert!(!runtime.fold_if_component_like(&any, &at("Excluded", 1), true));
    // A new run forgets all of it.
    runtime.initialize_before_fold_module();
    assert!(runtime.fold_module_item(&item("Excluded", vec![Stmt::Other(vec![])])));
}

#[test]
fn environment_check() {
    assert_eq!(check_environment("development", None), Ok(()));
    assert_eq!(check_environment("development", Some(false)), Ok(()));
    assert_eq!(check_environment("production", Some(true)), Ok(()));
    assert_eq!(check_environment("production", None), Err(PluginError::NotDevelopment));
    assert_eq!(check_environment("production", Some(false)), Err(PluginError::NotDevelopment));
    assert_eq!(check_environment("", None), Err(PluginError::NotDevelopment));
    assert_eq!(check_environment("Development", None), Err(PluginError::NotDevelopment));
    assert_eq!(check_environment("", Some(true)), Ok(()));
}

#[test]
fn error_message() {
    assert_eq!(
        PluginError::NotDevelopment.message(),
        "swc-plugin-react-refresh transform should only be enabled in development environment.\n\
         If you want to override this check, pass `skipEnvCheck` as plugin options.",
    );
}

#[test]
fn plugin_runs_in_development_only() {
    let module = || Module {
        body: vec![ModuleItem::Stmt(Stmt::Decl(Decl::Fn(
            at("Foo", 9),
            vec![Block { stmts: vec![Stmt::Other(vec![])] }],
        )))],
    };
    let options = |skip: Option<bool>| ReactRefreshOptions {
        module_id: "m".to_string(),
        skip_env_check: skip,
    };
    let expected = react_refresh("m".to_string()).fold_module(module());
    assert_eq!(expected.body.len(), 3 + 1 + 2 + 2);
    assert_eq!(
        swc_react_refresh_plugin(module(), options(None), "development"),
        Ok(react_refresh("m".to_string()).fold_module(module())),
    );
    assert_eq!(
        swc_react_refresh_plugin(module(), options(Some(true)), "test"),
        Ok(react_refresh("m".to_string()).fold_module(module())),
    );
    assert_eq!(
        swc_react_refresh_plugin(module(), options(None), "production"),
        Err(PluginError::NotDevelopment),
    );
    assert_eq!(
        swc_react_refresh_plugin(module(), options(Some(false)), "production"),
        Err(PluginError::NotDevelopment),
    );
}

#[test]
fn records_keep_names_places_and_counts() {
    let call = |hook: &str| {
        Stmt::Expr(Expr::Call(Box::new(Expr::Ident(at(hook, 40))), vec![]))
    };
    let function = |name: &str, lo: u32, stmts: Vec<Stmt>| {
        ModuleItem::Stmt(Stmt::Decl(Decl::Fn(at(name, lo), vec![Block { stmts }])))
    };
    let mut runtime = react_refresh("m".to_string());
    assert_eq!(runtime.get_component_list(), &Vec::<ComponentMeta>::new());
    assert!(!runtime.should_assign_sig_fn());
    runtime.fold_module(Module {
        body: vec![
            function("Plain", 9, vec![Stmt::Other(vec![])]),
            function("helper", 30, vec![call("useState")]),
            function("Hooked", 60, vec![call("useState"), call("useMine"), call("useMine")]),
        ],
    });
    assert_eq!(
        runtime.get_component_list(),
        &vec![
            ComponentMeta {
                span: Span { lo: 9, hi: 10, ctxt: 2 },
                name: "Plain".to_string(),
                builtin_hook_count: 0,
                custom_hook_count: 0,
            },
            ComponentMeta {
                span: Span { lo: 60, hi: 61, ctxt: 2 },
                name: "Hooked".to_string(),
                builtin_hook_count: 1,
                custom_hook_count: 2,
            },
        ],
    );
    assert!(runtime.should_assign_sig_fn());
    runtime.fold_module(Module { body: vec![function("Plain", 9, vec![Stmt::Other(vec![])])] });
    assert_eq!(runtime.get_component_list().len(), 1);
    assert!(!runtime.should_assign_sig_fn());
}
