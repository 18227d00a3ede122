use lifetime_lint::ast::{
    CatchClause, Decl, Declarator, Expr, ForHead, Func, MemberProp, Pat, Script, Stmt, SwitchCase, Symbol,
    VarDecl, VarKind,
};
use lifetime_lint::policy::{HandlerSlot, ListKind, Policy};
use lifetime_lint::report::{finalize, lint, locate, MappedToken, Position, UNMAPPED};
use lifetime_lint::semantics::Violation;
use lifetime_lint::walker::lint_script;

const REGISTER: Symbol = 1;
const REQUEST_DATA: Symbol = 2;
const UNAVAILABLE_API: Symbol = 3;
const READ: Symbol = 4;
const OTHER: Symbol = 5;
const HANDLER: Symbol = 6;
const APP: Symbol = 7;
const ON: Symbol = 8;

fn ident(name: Symbol, pos: u32) -> Expr {
    Expr::Ident { name, pos }
}

fn call(callee: Expr, args: Vec<Expr>) -> Expr {
    Expr::Call { callee: Box::new(callee), args }
}

fn method_call(obj: Expr) -> Expr {
    call(Expr::Member { obj: Box::new(obj), prop: MemberProp::Named { name: READ } }, vec![])
}

fn function(params: Vec<Pat>, body: Vec<Stmt>) -> Expr {
    Expr::Function { func: Func { params, body } }
}

fn stmt(e: Expr) -> Stmt {
    Stmt::Expr { expr: e }
}

fn script(body: Vec<Stmt>) -> Script {
    Script { body }
}

fn policy() -> Policy {
    Policy::new(
        vec![UNAVAILABLE_API],
        vec![REQUEST_DATA],
        vec![
            HandlerSlot { callee: vec![REGISTER], arg: 1 },
            HandlerSlot { callee: vec![APP, ON], arg: 1 },
        ],
    )
}

fn let_decl(kind: VarKind, name: Symbol, init: Option<Expr>) -> Stmt {
    Stmt::Decl {
        decl: Decl::Var {
            decl: VarDecl { kind, decls: vec![Declarator { pat: Pat::Ident { name }, init }] },
        },
    }
}

fn violation(name: Symbol, pos: u32, list: ListKind) -> Violation {
    Violation { name, pos, list }
}

#[test]
fn shadowing_function_declaration_accepted() {
    // function unavailableApi() { return 1; } unavailableApi();
    let s = script(vec![
        Stmt::Decl {
            decl: Decl::Fn {
                name: UNAVAILABLE_API,
                func: Func { params: vec![], body: vec![Stmt::Return { arg: Some(Expr::Lit) }] },
            },
        },
        stmt(call(ident(UNAVAILABLE_API, 40), vec![])),
    ]);
    assert_eq!(lint_script(&policy(), &s), Ok(()));
}

#[test]
fn shadowing_parameter_accepted() {
    // function f(requestData) { requestData.read(); }
    let s = script(vec![Stmt::Decl {
        decl: Decl::Fn {
            name: OTHER,
            func: Func {
                params: vec![Pat::Ident { name: REQUEST_DATA }],
                body: vec![stmt(method_call(ident(REQUEST_DATA, 30)))],
            },
        },
    }]);
    assert_eq!(lint_script(&policy(), &s), Ok(()));
}

#[test]
fn block_binding_ends_with_block() {
    // { let requestData = 1; requestData; } requestData;
    let s = script(vec![
        Stmt::Block {
            stmts: vec![
                let_decl(VarKind::Let, REQUEST_DATA, Some(Expr::Lit)),
                stmt(ident(REQUEST_DATA, 25)),
            ],
        },
        stmt(ident(REQUEST_DATA, 40)),
    ]);
    assert_eq!(
        lint_script(&policy(), &s),
        Err(violation(REQUEST_DATA, 40, ListKind::RequestOnly))
    );
}

#[test]
fn var_binding_outlives_block() {
    // { var requestData = 1; } requestData;
    let s = script(vec![
        Stmt::Block { stmts: vec![let_decl(VarKind::Var, REQUEST_DATA, Some(Expr::Lit))] },
        stmt(ident(REQUEST_DATA, 40)),
    ]);
    assert_eq!(lint_script(&policy(), &s), Ok(()));
}

#[test]
fn initializer_sees_new_binding() {
    // const unavailableApi = unavailableApi;
    let s = script(vec![let_decl(VarKind::Const, UNAVAILABLE_API, Some(ident(UNAVAILABLE_API, 21)))]);
    assert_eq!(lint_script(&policy(), &s), Ok(()));
}

#[test]
fn request_only_rejected_at_top_level() {
    // requestData.read();
    let s = script(vec![stmt(method_call(ident(REQUEST_DATA, 0)))]);
    assert_eq!(
        lint_script(&policy(), &s),
        Err(violation(REQUEST_DATA, 0, ListKind::RequestOnly))
    );
}

#[test]
fn request_only_accepted_in_handler() {
    // register("onRequest", function() { requestData.read(); })
    let handler = function(vec![], vec![stmt(method_call(ident(REQUEST_DATA, 35)))]);
    let s = script(vec![stmt(call(ident(REGISTER, 0), vec![Expr::Lit, handler]))]);
    assert_eq!(lint_script(&policy(), &s), Ok(()));
}

#[test]
fn request_only_accepted_in_method_handler() {
    // app.on("request", () => requestData.read())
    let handler = function(vec![], vec![Stmt::Return { arg: Some(method_call(ident(REQUEST_DATA, 30))) }]);
    let callee = Expr::Member { obj: Box::new(ident(APP, 0)), prop: MemberProp::Named { name: ON } };
    let s = script(vec![stmt(call(callee, vec![Expr::Lit, handler]))]);
    assert_eq!(lint_script(&policy(), &s), Ok(()));
}

#[test]
fn other_method_handler_is_global() {
    // other.on("request", () => requestData.read())
    let handler = function(vec![], vec![Stmt::Return { arg: Some(method_call(ident(REQUEST_DATA, 32))) }]);
    let callee = Expr::Member { obj: Box::new(ident(OTHER, 0)), prop: MemberProp::Named { name: ON } };
    let s = script(vec![stmt(call(callee, vec![Expr::Lit, handler]))]);
    assert_eq!(
        lint_script(&policy(), &s),
        Err(violation(REQUEST_DATA, 32, ListKind::RequestOnly))
    );
}

#[test]
fn handler_in_other_slot_is_global() {
    // register(function() { requestData.read(); }, "onRequest")
    let handler = function(vec![], vec![stmt(method_call(ident(REQUEST_DATA, 22)))]);
    let s = script(vec![stmt(call(ident(REGISTER, 0), vec![handler, Expr::Lit]))]);
    assert_eq!(
        lint_script(&policy(), &s),
        Err(violation(REQUEST_DATA, 22, ListKind::RequestOnly))
    );
}

#[test]
fn named_function_passed_later_is_global() {
    // function handler() { requestData.read(); } register("onRequest", handler);
    let s = script(vec![
        Stmt::Decl {
            decl: Decl::Fn {
                name: HANDLER,
                func: Func { params: vec![], body: vec![stmt(method_call(ident(REQUEST_DATA, 21)))] },
            },
        },
        stmt(call(ident(REGISTER, 45), vec![Expr::Lit, ident(HANDLER, 67)])),
    ]);
    assert_eq!(
        lint_script(&policy(), &s),
        Err(violation(REQUEST_DATA, 21, ListKind::RequestOnly))
    );
}

#[test]
fn nested_function_in_handler_is_request() {
    // register("x", function() { [1].map(function() { return requestData; }); })
    let inner = function(vec![], vec![Stmt::Return { arg: Some(ident(REQUEST_DATA, 50)) }]);
    let handler = function(vec![], vec![stmt(call(
        Expr::Member {
            obj: Box::new(Expr::Compound { parts: vec![Expr::Lit] }),
            prop: MemberProp::Named { name: OTHER },
        },
        vec![inner],
    ))]);
    let s = script(vec![stmt(call(ident(REGISTER, 0), vec![Expr::Lit, handler]))]);
    assert_eq!(lint_script(&policy(), &s), Ok(()));
}

#[test]
fn unavailable_rejected_in_handler() {
    // register("onRequest", function() { unavailableApi(); })
    let handler = function(vec![], vec![stmt(call(ident(UNAVAILABLE_API, 35), vec![]))]);
    let s = script(vec![stmt(call(ident(REGISTER, 0), vec![Expr::Lit, handler]))]);
    assert_eq!(
        lint_script(&policy(), &s),
        Err(violation(UNAVAILABLE_API, 35, ListKind::Unavailable))
    );
}

#[test]
fn unavailable_rejected_at_top_level() {
    let s = script(vec![stmt(ident(UNAVAILABLE_API, 3))]);
    assert_eq!(
        lint_script(&policy(), &s),
        Err(violation(UNAVAILABLE_API, 3, ListKind::Unavailable))
    );
}

#[test]
fn unavailable_wins_over_request_only() {
    let p = Policy::new(
        vec![REQUEST_DATA],
        vec![REQUEST_DATA],
        vec![HandlerSlot { callee: vec![REGISTER], arg: 1 }],
    );
    let handler = function(vec![], vec![stmt(ident(REQUEST_DATA, 30))]);
    let s = script(vec![stmt(call(ident(REGISTER, 0), vec![Expr::Lit, handler]))]);
    assert_eq!(lint_script(&p, &s), Err(violation(REQUEST_DATA, 30, ListKind::Unavailable)));
}

#[test]
fn first_violation_reported() {
    // requestData; unavailableApi;
    let s = script(vec![stmt(ident(REQUEST_DATA, 0)), stmt(ident(UNAVAILABLE_API, 13))]);
    assert_eq!(
        lint_script(&policy(), &s),
        Err(violation(REQUEST_DATA, 0, ListKind::RequestOnly))
    );
    // unavailableApi; requestData;
    let s = script(vec![stmt(ident(UNAVAILABLE_API, 0)), stmt(ident(REQUEST_DATA, 16))]);
    assert_eq!(
        lint_script(&policy(), &s),
        Err(violation(UNAVAILABLE_API, 0, ListKind::Unavailable))
    );
}

#[test]
fn lint_twice_same_result() {
    let p = policy();
    let bad = script(vec![stmt(ident(OTHER, 0)), stmt(ident(REQUEST_DATA, 7))]);
    assert_eq!(lint_script(&p, &bad), lint_script(&p, &bad));
    assert_eq!(lint_script(&p, &bad), Err(violation(REQUEST_DATA, 7, ListKind::RequestOnly)));
    let good = script(vec![stmt(ident(OTHER, 0))]);
    assert_eq!(lint_script(&p, &good), Ok(()));
    assert_eq!(lint_script(&p, &good), Ok(()));
}

#[test]
fn unknown_globals_accepted() {
    let s = script(vec![stmt(method_call(ident(OTHER, 0))), stmt(ident(READ, 9))]);
    assert_eq!(lint_script(&policy(), &s), Ok(()));
}

#[test]
fn empty_script_accepted() {
    assert_eq!(lint_script(&policy(), &script(vec![])), Ok(()));
}

#[test]
fn property_names_not_checked() {
    // other.requestData;  other[requestData];
    let plain = Expr::Member {
        obj: Box::new(ident(OTHER, 0)),
        prop: MemberProp::Named { name: REQUEST_DATA },
    };
    assert_eq!(lint_script(&policy(), &script(vec![stmt(plain)])), Ok(()));
    let computed = Expr::Member {
        obj: Box::new(ident(OTHER, 0)),
        prop: MemberProp::Computed { key: Box::new(ident(REQUEST_DATA, 6)) },
    };
    assert_eq!(
        lint_script(&policy(), &script(vec![stmt(computed)])),
        Err(violation(REQUEST_DATA, 6, ListKind::RequestOnly))
    );
}

#[test]
fn catch_parameter_shadows() {
    // try { } catch (requestData) { requestData; } finally { unavailableApi; }
    let s = script(vec![Stmt::Try {
        block: vec![],
        handler: Some(CatchClause {
            param: Some(Pat::Ident { name: REQUEST_DATA }),
            body: vec![stmt(ident(REQUEST_DATA, 30))],
        }),
        finalizer: Some(vec![stmt(ident(UNAVAILABLE_API, 55))]),
    }]);
    assert_eq!(
        lint_script(&policy(), &s),
        Err(violation(UNAVAILABLE_API, 55, ListKind::Unavailable))
    );
}

#[test]
fn catch_body_before_pattern_defaults() {
    // try { } catch ({ a = unavailableApi }) { requestData; }
    let s = script(vec![Stmt::Try {
        block: vec![],
        handler: Some(CatchClause {
            param: Some(Pat::Object {
                props: vec![Pat::Assign {
                    left: Box::new(Pat::Ident { name: READ }),
                    default: Box::new(ident(UNAVAILABLE_API, 20)),
                }],
            }),
            body: vec![stmt(ident(REQUEST_DATA, 40))],
        }),
        finalizer: None,
    }]);
    assert_eq!(
        lint_script(&policy(), &s),
        Err(violation(REQUEST_DATA, 40, ListKind::RequestOnly))
    );
    // with a clean body, the pattern's default is still reported
    let s = script(vec![Stmt::Try {
        block: vec![],
        handler: Some(CatchClause {
            param: Some(Pat::Assign {
                left: Box::new(Pat::Ident { name: READ }),
                default: Box::new(ident(UNAVAILABLE_API, 20)),
            }),
            body: vec![stmt(ident(READ, 40))],
        }),
        finalizer: None,
    }]);
    assert_eq!(
        lint_script(&policy(), &s),
        Err(violation(UNAVAILABLE_API, 20, ListKind::Unavailable))
    );
}

#[test]
fn loop_binding_shadows() {
    // for (let requestData of other) { requestData; }
    let s = script(vec![Stmt::ForOf {
        left: ForHead::Var {
            decl: VarDecl {
                kind: VarKind::Let,
                decls: vec![Declarator { pat: Pat::Ident { name: REQUEST_DATA }, init: None }],
            },
        },
        right: ident(OTHER, 25),
        body: Box::new(Stmt::Block { stmts: vec![stmt(ident(REQUEST_DATA, 34))] }),
    }]);
    assert_eq!(lint_script(&policy(), &s), Ok(()));
}

#[test]
fn default_parameter_linted() {
    // function f(a = requestData) {}
    let s = script(vec![Stmt::Decl {
        decl: Decl::Fn {
            name: OTHER,
            func: Func {
                params: vec![Pat::Assign {
                    left: Box::new(Pat::Ident { name: READ }),
                    default: Box::new(ident(REQUEST_DATA, 15)),
                }],
                body: vec![],
            },
        },
    }]);
    assert_eq!(
        lint_script(&policy(), &s),
        Err(violation(REQUEST_DATA, 15, ListKind::RequestOnly))
    );
}

#[test]
fn switch_discriminant_before_cases() {
    // switch (unavailableApi) { case requestData: }
    let s = script(vec![Stmt::Switch {
        discriminant: ident(UNAVAILABLE_API, 8),
        cases: vec![SwitchCase { test: Some(ident(REQUEST_DATA, 31)), cons: vec![] }],
    }]);
    assert_eq!(
        lint_script(&policy(), &s),
        Err(violation(UNAVAILABLE_API, 8, ListKind::Unavailable))
    );
}

#[test]
fn while_test_before_body() {
    let s = script(vec![Stmt::DoWhile {
        body: Box::new(stmt(ident(UNAVAILABLE_API, 3))),
        test: ident(REQUEST_DATA, 30),
    }]);
    assert_eq!(
        lint_script(&policy(), &s),
        Err(violation(REQUEST_DATA, 30, ListKind::RequestOnly))
    );
}

#[test]
fn policy_queries() {
    let p = policy();
    assert_eq!(p.check(UNAVAILABLE_API, true), Some(ListKind::Unavailable));
    assert_eq!(p.check(REQUEST_DATA, false), Some(ListKind::RequestOnly));
    assert_eq!(p.check(REQUEST_DATA, true), None);
    assert_eq!(p.check(OTHER, false), None);
    assert!(p.permitted(REQUEST_DATA, true));
    assert!(!p.permitted(REQUEST_DATA, false));
    assert!(p.slot(&vec![REGISTER], 1));
    assert!(!p.slot(&vec![REGISTER], 0));
    assert!(p.slot(&vec![APP, ON], 1));
    assert!(!p.slot(&vec![APP], 1));
    assert!(!p.slot(&vec![ON], 1));
}

#[test]
fn locate_line_and_column() {
    let src = b"ab\ncde\n\nf".to_vec();
    assert_eq!(locate(&src, 0), Position { line: 0, col: 0 });
    assert_eq!(locate(&src, 1), Position { line: 0, col: 1 });
    assert_eq!(locate(&src, 3), Position { line: 1, col: 0 });
    assert_eq!(locate(&src, 5), Position { line: 1, col: 2 });
    assert_eq!(locate(&src, 8), Position { line: 3, col: 0 });
    assert_eq!(locate(&src, 100), Position { line: 3, col: 1 });
}

#[test]
fn locate_counts_utf16_units() {
    // "é" is two bytes and one unit; the emoji is four bytes and two units
    let src = "\u{e9}x\n\u{1F600}y".as_bytes().to_vec();
    assert_eq!(locate(&src, 2), Position { line: 0, col: 1 });
    assert_eq!(locate(&src, 3), Position { line: 0, col: 2 });
    assert_eq!(locate(&src, 4), Position { line: 1, col: 0 });
    assert_eq!(locate(&src, 8), Position { line: 1, col: 2 });
    assert_eq!(locate(&src, 9), Position { line: 1, col: 3 });
}

#[test]
fn finalize_mapped_and_unmapped() {
    let v = violation(REQUEST_DATA, 4, ListKind::RequestOnly);
    let d = finalize(
        v,
        Some(MappedToken { src_line: 7, src_col: 3, source: Some("a.ts".to_string()) }),
    );
    assert_eq!(d.violation, v);
    let o = d.original.unwrap();
    assert_eq!((o.line, o.col, o.source), (7, 3, Some("a.ts".to_string())));
    let d = finalize(v, Some(MappedToken { src_line: UNMAPPED, src_col: UNMAPPED, source: None }));
    assert_eq!(d.violation, v);
    assert!(d.original.is_none());
    assert!(finalize(v, None).original.is_none());
}

fn source_map(mappings: &str) -> sourcemap::SourceMap {
    let json = format!(
        "{{\"version\":3,\"sources\":[\"orig.js\"],\"names\":[],\"mappings\":\"{}\"}}",
        mappings
    );
    sourcemap::SourceMap::from_slice(json.as_bytes()).unwrap()
}

#[test]
fn range_mapping_map_keeps_violation_untranslated() {
    // one range mapping at generated line 0, column 10; the violation sits
    // on line 1, column 2, where a lookup would subtract 10 from 2
    let json = "{\"version\":3,\"sources\":[\"orig.js\"],\"names\":[],\"mappings\":\"UAAA\",\"rangeMappings\":\"B\"}";
    let map = sourcemap::SourceMap::from_slice(json.as_bytes()).unwrap();
    let src = b"x;\n  requestData;".to_vec();
    let s = script(vec![stmt(ident(OTHER, 0)), stmt(ident(REQUEST_DATA, 5))]);
    let d = lint(&policy(), &s, &src, Some(&map)).unwrap_err();
    assert_eq!(d.violation, violation(REQUEST_DATA, 5, ListKind::RequestOnly));
    assert!(d.original.is_none());
}

#[test]
fn source_map_translates_position() {
    // generated line 1, column 0 maps to original line 2, column 2
    let map = source_map(";AAEE");
    let src = b"x;\n  requestData;".to_vec();
    let s = script(vec![stmt(ident(OTHER, 0)), stmt(ident(REQUEST_DATA, 5))]);
    let d = lint(&policy(), &s, &src, Some(&map)).unwrap_err();
    assert_eq!(d.violation, violation(REQUEST_DATA, 5, ListKind::RequestOnly));
    let o = d.original.unwrap();
    assert_eq!((o.line, o.col, o.source), (2, 2, Some("orig.js".to_string())));
}

#[test]
fn source_map_uncovered_keeps_violation() {
    // the only mapping starts at generated column 10
    let map = source_map("UAAA");
    let src = b"  requestData;".to_vec();
    let s = script(vec![stmt(ident(REQUEST_DATA, 2))]);
    let d = lint(&policy(), &s, &src, Some(&map)).unwrap_err();
    assert_eq!(d.violation, violation(REQUEST_DATA, 2, ListKind::RequestOnly));
    assert!(d.original.is_none());
}

#[test]
fn no_source_map_keeps_tree_position() {
    let src = b"requestData;".to_vec();
    let s = script(vec![stmt(ident(REQUEST_DATA, 0))]);
    let d = lint(&policy(), &s, &src, None).unwrap_err();
    assert_eq!(d.violation, violation(REQUEST_DATA, 0, ListKind::RequestOnly));
    assert!(d.original.is_none());
    assert!(lint(&policy(), &script(vec![]), &src, None).is_ok());
}
