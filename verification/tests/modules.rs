use ts_checker::analyzer::{analyze, Info, Rule};
use ts_checker::ast::{
    AssignTarget, ClassMember, Expr, FnData, ImportInfo, MemberKey, MethodKind, Module,
    ModuleItem, Param, Specifier, Stmt, VarDecl, VarDeclKind, VarDeclarator,
};
use ts_checker::errors::{err_eq, Error};
use ts_checker::ty::{
    eq_ignore_span, EnumMember, KeywordKind, LitValue, PropKey, Span, Type, TypeElement,
};

fn sp(n: u32) -> Span {
    Span::new(n, n + 1)
}

fn kw(n: u32, kind: KeywordKind) -> Type {
    Type::Keyword { span: sp(n), kind }
}

fn rule() -> Rule {
    Rule { no_implicit_any: false }
}

fn run(items: Vec<ModuleItem>) -> Info {
    let m = Module { span: sp(0), items };
    analyze(&Vec::new(), rule(), &m, Vec::new())
}

fn let_decl(n: u32, name: &str, ty: Option<Type>, init: Option<Expr>) -> ModuleItem {
    ModuleItem::Stmt(Stmt::VarDeclStmt {
        decl: VarDecl {
            span: sp(n),
            kind: VarDeclKind::Let,
            declare: false,
            decls: vec![VarDeclarator {
                span: sp(n),
                name: name.to_string(),
                name_span: sp(n + 1),
                ty,
                init,
            }],
        },
    })
}

fn num(n: u32, v: i64) -> Expr {
    Expr::Lit { span: sp(n), lit: LitValue::Num(v) }
}

fn strv(n: u32, s: &str) -> Expr {
    Expr::Lit { span: sp(n), lit: LitValue::Str(s.to_string()) }
}

fn ident(n: u32, name: &str) -> Expr {
    Expr::Ident { span: sp(n), name: name.to_string() }
}

#[test]
fn assigning_a_string_to_a_number_binding_is_an_error() {
    // let x = 1; x = 'a';  ->  one not-assignable diagnostic at the
    // assignment: the binding widened to number, the source a string.
    let items = vec![
        let_decl(1, "x", None, Some(num(2, 1))),
        ModuleItem::Stmt(Stmt::ExprStmt {
            span: sp(10),
            expr: Expr::Assign {
                span: sp(10),
                target: AssignTarget::Ident { span: sp(11), name: "x".to_string() },
                right: Box::new(strv(12, "a")),
            },
        }),
    ];
    let info = run(items);
    assert_eq!(info.errors.len(), 1);
    match &info.errors[0] {
        Error::NotAssignable { span, .. } => assert_eq!(span.lo, 10),
        _ => panic!("expected a not-assignable diagnostic"),
    }
}

#[test]
fn well_typed_narrowing_assignment_is_clean() {
    // let x: string | number; x = 1;  ->  no diagnostics.
    let ann = Type::Union {
        span: sp(3),
        types: vec![kw(4, KeywordKind::Str), kw(5, KeywordKind::Number)],
    };
    let items = vec![
        let_decl(1, "x", Some(ann), None),
        ModuleItem::Stmt(Stmt::ExprStmt {
            span: sp(10),
            expr: Expr::Assign {
                span: sp(10),
                target: AssignTarget::Ident { span: sp(11), name: "x".to_string() },
                right: Box::new(num(12, 1)),
            },
        }),
    ];
    let info = run(items);
    assert_eq!(info.errors.len(), 0);
}

#[test]
fn class_with_bodyless_method_reports_one_missing_implementation() {
    // class C { foo(); }  ->  exactly one diagnostic at foo's key.
    let items = vec![ModuleItem::Stmt(Stmt::ClassDecl {
        span: sp(1),
        name: "C".to_string(),
        name_span: sp(2),
        declare: false,
        class: ts_checker::ast::ClassData {
            span: sp(1),
            body: vec![ClassMember::Method {
                span: sp(3),
                key: MemberKey::Plain(PropKey::Ident { span: sp(4), name: "foo".to_string() }),
                kind: MethodKind::Normal,
                func: FnData {
                    span: sp(3),
                    params: Vec::new(),
                    type_params: Vec::new(),
                    return_type: None,
                    body: None,
                },
            }],
        },
    })];
    let info = run(items);
    assert_eq!(info.errors.len(), 1);
    match &info.errors[0] {
        Error::FnImplMissing { span } => assert_eq!(span.lo, 4),
        _ => panic!("expected a missing function implementation"),
    }
}

#[test]
fn required_after_optional_in_a_function_declaration() {
    // function f(a?: number, b: number) {}  ->  one diagnostic at b.
    let items = vec![ModuleItem::Stmt(Stmt::FnDecl {
        span: sp(1),
        name: "f".to_string(),
        name_span: sp(2),
        declare: false,
        func: FnData {
            span: sp(1),
            params: vec![
                Param {
                    span: sp(3),
                    name: "a".to_string(),
                    optional: true,
                    ty: Some(kw(4, KeywordKind::Number)),
                },
                Param {
                    span: sp(5),
                    name: "b".to_string(),
                    optional: false,
                    ty: Some(kw(6, KeywordKind::Number)),
                },
            ],
            type_params: Vec::new(),
            return_type: None,
            body: Some(Vec::new()),
        },
    })];
    let info = run(items);
    assert_eq!(info.errors.len(), 1);
    match &info.errors[0] {
        Error::OptionalAfterRequired { span } => assert_eq!(span.lo, 5),
        _ => panic!("expected an optional-order diagnostic"),
    }
}

#[test]
fn function_body_statements_are_analyzed() {
    // function f() { let x = 1; return x; }  ->  no diagnostics: the
    // body's own declaration is in scope for its return.
    let body = vec![
        Stmt::VarDeclStmt {
            decl: VarDecl {
                span: sp(3),
                kind: VarDeclKind::Let,
                declare: false,
                decls: vec![VarDeclarator {
                    span: sp(3),
                    name: "x".to_string(),
                    name_span: sp(4),
                    ty: None,
                    init: Some(num(5, 1)),
                }],
            },
        },
        Stmt::Return { span: sp(6), arg: Some(ident(7, "x")) },
    ];
    let items = vec![ModuleItem::Stmt(Stmt::FnDecl {
        span: sp(1),
        name: "f".to_string(),
        name_span: sp(2),
        declare: false,
        func: FnData {
            span: sp(1),
            params: Vec::new(),
            type_params: Vec::new(),
            return_type: None,
            body: Some(body),
        },
    })];
    let info = run(items);
    assert_eq!(info.errors.len(), 0);
}

#[test]
fn failed_import_binds_locals_to_any() {
    // import { X } from "./missing";  X;  ->  one module-load-failed
    // diagnostic; the use of X cascades no further.
    let import = ImportInfo {
        span: sp(1),
        items: vec![Specifier {
            local: ("X".to_string(), sp(2)),
            export: ("X".to_string(), sp(3)),
        }],
        all: false,
        src: "./missing".to_string(),
    };
    let import2 = ImportInfo {
        span: sp(1),
        items: vec![Specifier {
            local: ("X".to_string(), sp(2)),
            export: ("X".to_string(), sp(3)),
        }],
        all: false,
        src: "./missing".to_string(),
    };
    let items = vec![
        ModuleItem::Import { import },
        ModuleItem::Stmt(Stmt::ExprStmt { span: sp(10), expr: ident(11, "X") }),
    ];
    let m = Module { span: sp(0), items };
    let results = vec![(import2, Err(Error::ModuleLoadFailed { span: sp(1) }))];
    let info = analyze(&Vec::new(), rule(), &m, results);
    assert_eq!(info.errors.len(), 1);
    match &info.errors[0] {
        Error::ModuleLoadFailed { span } => assert_eq!(span.lo, 1),
        _ => panic!("expected a module-load-failed diagnostic"),
    }
}

#[test]
fn enum_member_call_types_through_the_ambient_wrapper() {
    // enum E { A }  let v: E = E.A;  v.toString();  ->  no diagnostics,
    // given an ambient Number wrapper with toString.
    let number_iface = Type::Interface {
        span: sp(20),
        name: "Number".to_string(),
        type_params: Vec::new(),
        body: vec![TypeElement::Method {
            span: sp(21),
            key: PropKey::Ident { span: sp(21), name: "toString".to_string() },
            params: Vec::new(),
            type_params: Vec::new(),
            ret: Some(Box::new(kw(22, KeywordKind::Str))),
        }],
        parents: Vec::new(),
    };
    let libs = vec![("Number".to_string(), number_iface)];
    let items = vec![
        ModuleItem::Stmt(Stmt::EnumDecl {
            span: sp(1),
            name: "E".to_string(),
            members: vec![EnumMember { span: sp(2), name: "A".to_string(), init: None }],
        }),
        let_decl(
            3,
            "v",
            Some(Type::Ref {
                span: sp(4),
                name: "E".to_string(),
                member: None,
                type_args: Vec::new(),
            }),
            Some(Expr::Member {
                span: sp(5),
                obj: Box::new(ident(6, "E")),
                prop: Box::new(ident(7, "A")),
                computed: false,
            }),
        ),
        ModuleItem::Stmt(Stmt::ExprStmt {
            span: sp(10),
            expr: Expr::Call {
                span: sp(10),
                callee: ts_checker::ast::Callee::Expr(Box::new(Expr::Member {
                    span: sp(11),
                    obj: Box::new(ident(12, "v")),
                    prop: Box::new(ident(13, "toString")),
                    computed: false,
                })),
                args: Vec::new(),
                type_args: Vec::new(),
            },
        }),
    ];
    let m = Module { span: sp(0), items };
    let info = analyze(&libs, rule(), &m, Vec::new());
    assert_eq!(info.errors.len(), 0);
}

#[test]
fn object_literal_cast_to_mismatched_shape_is_an_error() {
    // const o = { a: 1 } as { a: string };  ->  one assignability
    // diagnostic on the cast.
    let obj = Expr::Object {
        span: sp(2),
        props: vec![ts_checker::ast::ObjectProp::Prop {
            span: sp(3),
            key: PropKey::Ident { span: sp(3), name: "a".to_string() },
            value: Some(Box::new(num(4, 1))),
        }],
    };
    let target = Type::TypeLit {
        span: sp(5),
        members: vec![TypeElement::Property {
            span: sp(6),
            key: PropKey::Ident { span: sp(6), name: "a".to_string() },
            optional: false,
            readonly: false,
            ty: Some(Box::new(kw(7, KeywordKind::Str))),
        }],
    };
    let items = vec![let_decl(
        1,
        "o",
        None,
        Some(Expr::TsAs { span: sp(8), expr: Box::new(obj), to: target }),
    )];
    let info = run(items);
    assert_eq!(info.errors.len(), 1);
    match &info.errors[0] {
        Error::NotAssignable { span, .. } => assert_eq!(span.lo, 8),
        _ => panic!("expected a not-assignable diagnostic on the cast"),
    }
}

#[test]
fn analysis_is_deterministic() {
    // Analyzing the same module twice yields equal error lists and
    // equal export tables.
    let build = || {
        vec![
            let_decl(1, "x", None, Some(num(2, 1))),
            ModuleItem::Stmt(Stmt::ExprStmt {
                span: sp(10),
                expr: Expr::Assign {
                    span: sp(10),
                    target: AssignTarget::Ident { span: sp(11), name: "x".to_string() },
                    right: Box::new(strv(12, "a")),
                },
            }),
            ModuleItem::ExportDecl {
                span: sp(20),
                decl: Stmt::EnumDecl {
                    span: sp(21),
                    name: "E".to_string(),
                    members: vec![EnumMember { span: sp(22), name: "A".to_string(), init: None }],
                },
            },
        ]
    };
    let i1 = run(build());
    let i2 = run(build());
    assert_eq!(i1.errors.len(), i2.errors.len());
    for k in 0..i1.errors.len() {
        assert!(err_eq(&i1.errors[k], &i2.errors[k]));
    }
    assert_eq!(i1.exports.len(), i2.exports.len());
    assert_eq!(i1.exports.len(), 1);
    assert_eq!(i1.exports[0].0, "E");
    for k in 0..i1.exports.len() {
        assert_eq!(i1.exports[k].0, i2.exports[k].0);
        assert!(eq_ignore_span(&i1.exports[k].1, &i2.exports[k].1));
    }
}

#[test]
fn narrowing_is_scoped_to_the_block() {
    // { x = 1; } narrows only inside the block: the copied binding is
    // dropped with its frame, and a later ill-typed assignment still
    // checks against the declared union.
    let ann = || Type::Union {
        span: sp(3),
        types: vec![kw(4, KeywordKind::Str), kw(5, KeywordKind::Number)],
    };
    let assign_num = Stmt::ExprStmt {
        span: sp(10),
        expr: Expr::Assign {
            span: sp(10),
            target: AssignTarget::Ident { span: sp(11), name: "x".to_string() },
            right: Box::new(num(12, 1)),
        },
    };
    let assign_bool_ok = Stmt::ExprStmt {
        span: sp(20),
        expr: Expr::Assign {
            span: sp(20),
            target: AssignTarget::Ident { span: sp(21), name: "x".to_string() },
            right: Box::new(strv(22, "s")),
        },
    };
    let items = vec![
        let_decl(1, "x", Some(ann()), None),
        ModuleItem::Stmt(Stmt::Block { span: sp(9), stmts: vec![assign_num] }),
        // Outside the block the declared type is the union again, so a
        // string is accepted.
        ModuleItem::Stmt(assign_bool_ok),
    ];
    let info = run(items);
    assert_eq!(info.errors.len(), 0);
}

#[test]
fn select_exports_reports_missing_items() {
    let exports = vec![("A".to_string(), kw(1, KeywordKind::Number))];
    let import = ImportInfo {
        span: sp(5),
        items: vec![
            Specifier { local: ("a".to_string(), sp(6)), export: ("A".to_string(), sp(7)) },
            Specifier { local: ("b".to_string(), sp(8)), export: ("B".to_string(), sp(9)) },
        ],
        all: false,
        src: "./m".to_string(),
    };
    match ts_checker::analyzer::select_exports(&exports, &import) {
        Err(Error::Grouped { span, errors }) => {
            assert_eq!(span.lo, 5);
            assert_eq!(errors.len(), 1);
            match &errors[0] {
                Error::NoSuchExport { span, name } => {
                    assert_eq!(span.lo, 9);
                    assert_eq!(name, "B");
                },
                _ => panic!("expected a no-such-export diagnostic"),
            }
        },
        _ => panic!("expected a grouped diagnostic"),
    }
    // A request whose items all resolve succeeds, keyed by local name.
    let import_ok = ImportInfo {
        span: sp(5),
        items: vec![Specifier {
            local: ("a".to_string(), sp(6)),
            export: ("A".to_string(), sp(7)),
        }],
        all: false,
        src: "./m".to_string(),
    };
    let got = ts_checker::analyzer::select_exports(&exports, &import_ok).unwrap();
    assert_eq!(got.len(), 1);
    assert_eq!(got[0].0, "a");
}

#[test]
fn instantiation_substitutes_type_parameters() {
    // Calling <T>(x: T) => T with type argument number yields number.
    let tp = ts_checker::ty::TypeParamDecl {
        span: sp(1),
        name: "T".to_string(),
        constraint: None,
        default: None,
    };
    let t_ref = || Type::Ref {
        span: sp(2),
        name: "T".to_string(),
        member: None,
        type_args: Vec::new(),
    };
    let f = Type::Function {
        span: sp(0),
        params: vec![ts_checker::ty::FnParam {
            span: sp(3),
            name: "x".to_string(),
            optional: false,
            ty: Some(Box::new(t_ref())),
        }],
        type_params: vec![tp],
        ret: Box::new(t_ref()),
    };
    let cx = ts_checker::scope::Cx {
        scopes: vec![ts_checker::scope::new_frame(ts_checker::scope::ScopeKind::Module)],
        imports: Vec::new(),
        libs: Vec::new(),
    };
    let targs = vec![kw(9, KeywordKind::Number)];
    let r = ts_checker::expr::extract(
        &cx,
        sp(10),
        &f,
        ts_checker::expr::ExtractKind::Call,
        1,
        &targs,
    )
    .unwrap();
    assert!(eq_ignore_span(&r, &kw(11, KeywordKind::Number)));
}

#[test]
fn this_resolves_inside_a_class_body() {
    // class C { m() { return this; } }  ->  no diagnostics.
    let items = vec![ModuleItem::Stmt(Stmt::ClassDecl {
        span: sp(1),
        name: "C".to_string(),
        name_span: sp(2),
        declare: false,
        class: ts_checker::ast::ClassData {
            span: sp(1),
            body: vec![ClassMember::Method {
                span: sp(3),
                key: MemberKey::Plain(PropKey::Ident { span: sp(4), name: "m".to_string() }),
                kind: MethodKind::Normal,
                func: FnData {
                    span: sp(3),
                    params: Vec::new(),
                    type_params: Vec::new(),
                    return_type: None,
                    body: Some(vec![Stmt::Return {
                        span: sp(5),
                        arg: Some(Expr::This { span: sp(6) }),
                    }]),
                },
            }],
        },
    })];
    let info = run(items);
    assert_eq!(info.errors.len(), 0);
}

#[test]
fn computed_key_must_be_literal() {
    // class C { ["k"]: number; [x]: number; }  ->  the string key is
    // fine; the unresolved identifier key raises one grouped
    // diagnostic.
    let items = vec![ModuleItem::Stmt(Stmt::ClassDecl {
        span: sp(1),
        name: "C".to_string(),
        name_span: sp(2),
        declare: false,
        class: ts_checker::ast::ClassData {
            span: sp(1),
            body: vec![
                ClassMember::Prop {
                    span: sp(3),
                    key: MemberKey::Computed { span: sp(4), expr: Box::new(strv(5, "k")) },
                    ty: Some(kw(6, KeywordKind::Number)),
                    value: None,
                },
                ClassMember::Prop {
                    span: sp(7),
                    key: MemberKey::Computed { span: sp(8), expr: Box::new(ident(9, "x")) },
                    ty: Some(kw(10, KeywordKind::Number)),
                    value: None,
                },
            ],
        },
    })];
    let info = run(items);
    assert_eq!(info.errors.len(), 1);
    match &info.errors[0] {
        Error::Grouped { span, errors } => {
            assert_eq!(span.lo, 8);
            assert!(errors.len() >= 1);
        },
        _ => panic!("expected a grouped computed-key diagnostic"),
    }
}
