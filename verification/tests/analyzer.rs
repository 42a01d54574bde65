use react_refresh::component::{
    classify_hook, is_builtin_hook_name, same_text, starts_with, HookKind,
    ReactRefreshRuntimeComponent,
};
use react_refresh::syntax::{
    Block, Decl, Expr, ExprOrSpread, Ident, Pat, Span, Stmt, VarDeclKind, VarDeclarator,
};

fn made(sym: &str) -> Ident {
    Ident { sym: sym.to_string(), span: Span { lo: 0, hi: 0, ctxt: 0 } }
}

fn call_of(callee: Expr) -> Expr {
    Expr::Call(Box::new(callee), vec![])
}

fn call(hook: &str) -> Expr {
    call_of(Expr::Ident(made(hook)))
}

fn declared(inits: Vec<Option<Expr>>) -> Stmt {
    Stmt::Decl(Decl::Var(
        VarDeclKind::Const,
        inits.into_iter().map(|init| VarDeclarator { name: Pat::Other, init: init.map(Box::new) }).collect(),
    ))
}

fn probe() -> Stmt {
    Stmt::Expr(call("__s"))
}

fn findings(is_empty: bool, builtin: u64, custom: u64) -> ReactRefreshRuntimeComponent {
    ReactRefreshRuntimeComponent {
        is_empty,
        builtin_hook_count: builtin,
        custom_hook_count: custom,
    }
}

#[test]
fn every_builtin_hook_is_known() {
    for hook in [
        "useState",
        "useReducer",
        "useEffect",
        "useLayoutEffect",
        "useMemo",
        "useCallback",
        "useRef",
        "useContext",
        "useImperativeHandle",
        "useDebugValue",
    ] {
        assert!(is_builtin_hook_name(hook));
        assert_eq!(classify_hook(hook), Some(HookKind::Builtin));
    }
}

#[test]
fn other_use_names_are_custom_hooks() {
    assert_eq!(classify_hook("useMyThing"), Some(HookKind::Custom));
    assert_eq!(classify_hook("use"), Some(HookKind::Custom));
    assert_eq!(classify_hook("user"), Some(HookKind::Custom));
    assert_eq!(classify_hook("useStates"), Some(HookKind::Custom));
    assert_eq!(classify_hook("useTransition"), Some(HookKind::Custom));
    assert!(!is_builtin_hook_name("useMyThing"));
}

#[test]
fn other_names_are_no_hooks() {
    assert_eq!(classify_hook("notValidHook"), None);
    assert_eq!(classify_hook("UseState"), None);
    assert_eq!(classify_hook("us"), None);
    assert_eq!(classify_hook(""), None);
    assert_eq!(classify_hook("myuse"), None);
}

#[test]
fn texts_are_compared_by_their_characters() {
    assert!(same_text("", ""));
    assert!(same_text("développement", "développement"));
    assert!(!same_text("development", "developmenT"));
    assert!(!same_text("development", "develop"));
    assert!(starts_with("useé", "use"));
    assert!(starts_with("use", ""));
    assert!(!starts_with("us", "use"));
    assert!(!starts_with("éuse", "use"));
}

#[test]
fn default_findings_are_not_empty() {
    assert_eq!(ReactRefreshRuntimeComponent::default(), findings(false, 0, 0));
}

#[test]
fn signature_call_stmt_is_the_probe() {
    let component = ReactRefreshRuntimeComponent::default();
    assert_eq!(
        component.get_signature_call_stmt(),
        Stmt::Expr(Expr::Call(
            Box::new(Expr::Ident(Ident { sym: "__s".to_string(), span: Span { lo: 0, hi: 0, ctxt: 0 } })),
            vec![],
        )),
    );
}

#[test]
fn count_hook_counts_calls_of_plain_names() {
    let mut component = ReactRefreshRuntimeComponent::default();
    component.count_hook(&call("useState"));
    assert_eq!(component, findings(false, 1, 0));
    component.count_hook(&call("useFoo"));
    assert_eq!(component, findings(false, 1, 1));
    component.count_hook(&call("render"));
    assert_eq!(component, findings(false, 1, 1));
    // React.useState()
    component.count_hook(&call_of(Expr::Member(Box::new(Expr::Ident(made("React"))), made("useState"))));
    assert_eq!(component, findings(false, 1, 1));
    // useState (no call)
    component.count_hook(&Expr::Ident(made("useState")));
    assert_eq!(component, findings(false, 1, 1));
    // make()()
    component.count_hook(&call_of(call("useState")));
    assert_eq!(component, findings(false, 1, 1));
}

#[test]
fn counters_stop_at_their_limit() {
    let mut component = findings(true, u64::MAX, u64::MAX - 1);
    component.count_hook(&call("useState"));
    component.count_hook(&call("useFoo"));
    component.count_hook(&call("useFoo"));
    assert_eq!(component, findings(true, u64::MAX, u64::MAX));
}

#[test]
fn find_hook_call_reads_calls_and_initialisers() {
    let mut component = ReactRefreshRuntimeComponent::default();
    component.find_hook_call_from_stmt(&Stmt::Expr(call("useEffect")));
    assert_eq!(component, findings(false, 1, 0));
    component.find_hook_call_from_stmt(&declared(vec![
        Some(call("useState")),
        None,
        Some(call("useMine")),
        Some(Expr::Ident(made("useRef"))),
        Some(call("useRef")),
    ]));
    assert_eq!(component, findings(false, 3, 1));
    // return useState();
    component.find_hook_call_from_stmt(&Stmt::Other(vec![]));
    // x = useState();
    component.find_hook_call_from_stmt(&Stmt::Expr(Expr::Assign(
        Box::new(Expr::Ident(made("x"))),
        Box::new(call("useState")),
    )));
    // function useState() {}
    component.find_hook_call_from_stmt(&Stmt::Decl(Decl::Fn(made("useState"), vec![])));
    assert_eq!(component, findings(false, 3, 1));
}

#[test]
fn fold_block_stmt_probes_and_counts() {
    let mut component = ReactRefreshRuntimeComponent::default();
    let out = component.fold_block_stmt(Block {
        stmts: vec![Stmt::Expr(call("useState")), Stmt::Expr(call("useMine")), Stmt::Other(vec![])],
    });
    assert_eq!(
        out,
        Block {
            stmts: vec![
                probe(),
                Stmt::Expr(call("useState")),
                Stmt::Expr(call("useMine")),
                Stmt::Other(vec![]),
            ],
        },
    );
    assert_eq!(component, findings(false, 1, 1));
}

#[test]
fn fold_block_stmt_probes_an_empty_block() {
    let mut component = findings(false, 2, 0);
    let out = component.fold_block_stmt(Block { stmts: vec![] });
    assert_eq!(out, Block { stmts: vec![probe()] });
    assert_eq!(component, findings(true, 2, 0));
    // The probe itself is a statement of the block that comes out.
    let again = component.fold_block_stmt(out);
    assert_eq!(again, Block { stmts: vec![probe(), probe()] });
    assert_eq!(component, findings(false, 2, 0));
}

#[test]
fn fold_block_stmt_does_not_look_into_nested_statements() {
    let mut component = ReactRefreshRuntimeComponent::default();
    // { if (x) { useState(); } }
    let nested = || Stmt::Other(vec![Block { stmts: vec![Stmt::Expr(call("useState"))] }]);
    let out = component.fold_block_stmt(Block { stmts: vec![nested()] });
    assert_eq!(out, Block { stmts: vec![probe(), nested()] });
    assert_eq!(component, findings(false, 0, 0));
}

#[test]
fn walk_reaches_every_block() {
    let mut component = ReactRefreshRuntimeComponent::default();
    // memo(() => { useState(); }, function () { useMine(); const f = () => { useMemo(); }; })
    let tree = |p: &dyn Fn() -> Vec<Stmt>| {
        let with = |stmts: Vec<Stmt>| {
            let mut all = p();
            all.extend(stmts);
            Block { stmts: all }
        };
        Expr::Call(
            Box::new(Expr::Ident(made("memo"))),
            vec![
                ExprOrSpread {
                    spread: None,
                    expr: Box::new(Expr::Arrow(vec![with(vec![Stmt::Expr(call("useState"))])])),
                },
                ExprOrSpread {
                    spread: Some(Span { lo: 3, hi: 6, ctxt: 2 }),
                    expr: Box::new(Expr::Fn(
                        None,
                        vec![with(vec![
                            Stmt::Expr(call("useMine")),
                            Stmt::Decl(Decl::Var(
                                VarDeclKind::Const,
                                vec![VarDeclarator {
                                    name: Pat::Ident(made("f")),
                                    init: Some(Box::new(Expr::Arrow(vec![with(vec![Stmt::Expr(
                                        call("useMemo"),
                                    )])]))),
                                }],
                            )),
                        ])],
                    )),
                },
            ],
        )
    };
    let out = component.walk_expr(&tree(&|| vec![]));
    assert_eq!(out, tree(&|| vec![probe()]));
    assert_eq!(component, findings(false, 2, 1));
}

#[test]
fn walk_analyzes_a_block_after_the_blocks_inside_it() {
    // { if (x) { } return 1; }: the outer block is analyzed last, and it is not empty.
    let mut component = ReactRefreshRuntimeComponent::default();
    let out = component.walk_block(&Block {
        stmts: vec![Stmt::Other(vec![Block { stmts: vec![] }]), Stmt::Other(vec![])],
    });
    assert_eq!(
        out,
        Block {
            stmts: vec![
                probe(),
                Stmt::Other(vec![Block { stmts: vec![probe()] }]),
                Stmt::Other(vec![]),
            ],
        },
    );
    assert_eq!(component, findings(false, 0, 0));
    // { } after it: now the block analyzed last is empty.
    let out = component.walk_blocks(&vec![Block { stmts: vec![Stmt::Other(vec![])] }, Block {
        stmts: vec![],
    }]);
    assert_eq!(out.len(), 2);
    assert_eq!(component, findings(true, 0, 0));
}

#[test]
fn walk_keeps_what_it_does_not_probe() {
    let mut component = ReactRefreshRuntimeComponent::default();
    // a.b = "text"; class K { m() { } }
    let assign = Stmt::Expr(Expr::Assign(
        Box::new(Expr::Member(
            Box::new(Expr::Ident(Ident { sym: "a".to_string(), span: Span { lo: 1, hi: 2, ctxt: 2 } })),
            Ident { sym: "b".to_string(), span: Span { lo: 3, hi: 4, ctxt: 2 } },
        )),
        Box::new(Expr::Str("text".to_string())),
    ));
    let out = component.walk_stmt(&assign);
    assert_eq!(out, assign);
    let flag = Stmt::Expr(Expr::Bool(true));
    assert_eq!(component.walk_stmt(&flag), flag);
    let class = Decl::Class(
        Ident { sym: "K".to_string(), span: Span { lo: 30, hi: 31, ctxt: 2 } },
        vec![Block { stmts: vec![] }],
    );
    assert_eq!(
        component.walk_decl(&class),
        Decl::Class(
            Ident { sym: "K".to_string(), span: Span { lo: 30, hi: 31, ctxt: 2 } },
            vec![Block { stmts: vec![probe()] }],
        ),
    );
    assert_eq!(component, findings(true, 0, 0));
}
