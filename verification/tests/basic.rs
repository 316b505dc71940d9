use ts_checker::assign::{check_assignable, is_assignable};
use ts_checker::ast::{Expr, Param};
use ts_checker::class::{is_prop_name_eq, validate_class_members, validate_optional_order};
use ts_checker::errors::{err_eq, Error};
use ts_checker::expr::{access_property, ident_type, type_of, ExtractKind};
use ts_checker::scope::{add_fact, add_var, new_frame, Cx, ScopeKind, VarInfo};
use ts_checker::ty::{
    dup_ty, eq_ignore_span, negate, union_of, widen, KeywordKind, LitValue, PropKey, Span, Type,
};

fn sp(n: u32) -> Span {
    Span::new(n, n + 1)
}

fn kw(n: u32, kind: KeywordKind) -> Type {
    Type::Keyword { span: sp(n), kind }
}

fn num_lit(n: u32, v: i64) -> Type {
    Type::Lit { span: sp(n), lit: LitValue::Num(v) }
}

fn str_lit(n: u32, s: &str) -> Type {
    Type::Lit { span: sp(n), lit: LitValue::Str(s.to_string()) }
}

fn empty_cx() -> Cx {
    Cx { scopes: vec![new_frame(ScopeKind::Module)], imports: Vec::new(), libs: Vec::new() }
}

#[test]
fn literal_round_trip() {
    // The widened type of a literal is its base keyword.
    let w = widen(num_lit(0, 7));
    assert!(eq_ignore_span(&w, &kw(9, KeywordKind::Number)));
    let w2 = widen(str_lit(0, "a"));
    assert!(eq_ignore_span(&w2, &kw(9, KeywordKind::Str)));
    let w3 = widen(Type::Lit { span: sp(0), lit: LitValue::Bool(true) });
    assert!(eq_ignore_span(&w3, &kw(9, KeywordKind::Boolean)));
}

#[test]
fn union_absorbs_duplicate_member() {
    // Union(Union(a, b), a) is structurally Union(a, b).
    let a = || kw(1, KeywordKind::Number);
    let b = || kw(2, KeywordKind::Str);
    let u_ab = union_of(sp(3), vec![a(), b()]);
    let u_ab2 = union_of(sp(4), vec![a(), b()]);
    let lhs = union_of(sp(5), vec![u_ab2, a()]);
    assert!(eq_ignore_span(&lhs, &u_ab));
}

#[test]
fn union_of_one_member_collapses() {
    let a = kw(1, KeywordKind::Number);
    let u = union_of(sp(2), vec![dup_ty(&a)]);
    assert!(eq_ignore_span(&u, &a));
}

#[test]
fn union_of_nothing_is_never() {
    let u = union_of(sp(2), Vec::new());
    assert!(eq_ignore_span(&u, &kw(0, KeywordKind::Never)));
}

#[test]
fn negate_literals() {
    let t = negate(Type::Lit { span: sp(0), lit: LitValue::Bool(true) });
    assert!(eq_ignore_span(&t, &Type::Lit { span: sp(1), lit: LitValue::Bool(false) }));
    let z = negate(num_lit(0, 0));
    assert!(eq_ignore_span(&z, &Type::Lit { span: sp(1), lit: LitValue::Bool(false) }));
    let nz = negate(num_lit(0, 5));
    assert!(eq_ignore_span(&nz, &Type::Lit { span: sp(1), lit: LitValue::Bool(true) }));
}

#[test]
fn assignability_basics() {
    // any both ways; literal to its base; number not to string.
    assert!(is_assignable(&kw(0, KeywordKind::Any), &kw(1, KeywordKind::Str)));
    assert!(is_assignable(&str_lit(0, "x"), &kw(1, KeywordKind::Any)));
    assert!(is_assignable(&num_lit(0, 1), &kw(1, KeywordKind::Number)));
    assert!(!is_assignable(&num_lit(0, 1), &kw(1, KeywordKind::Str)));
    assert!(!is_assignable(&kw(0, KeywordKind::Number), &kw(1, KeywordKind::Str)));
    // a union source needs every member accepted.
    let su = union_of(sp(2), vec![kw(0, KeywordKind::Number), kw(1, KeywordKind::Str)]);
    assert!(!is_assignable(&su, &kw(3, KeywordKind::Number)));
    // a union target accepts a member.
    let tu = union_of(sp(2), vec![kw(0, KeywordKind::Number), kw(1, KeywordKind::Str)]);
    assert!(is_assignable(&num_lit(0, 1), &tu));
}

#[test]
fn enum_variant_assignable_to_its_enum() {
    let e = Type::Enum {
        span: sp(0),
        name: "E".to_string(),
        members: vec![ts_checker::ty::EnumMember {
            span: sp(1),
            name: "A".to_string(),
            init: None,
        }],
    };
    let v = Type::EnumVariant { span: sp(2), enum_name: "E".to_string(), name: "A".to_string() };
    assert!(is_assignable(&v, &e));
}

#[test]
fn cast_between_unrelated_types_is_an_error() {
    // A cast is an error when neither side accepts the other.
    let mut cx = empty_cx();
    let e = Expr::TsAs {
        span: sp(10),
        expr: Box::new(Expr::Lit { span: sp(11), lit: LitValue::Num(1) }),
        to: kw(12, KeywordKind::Str),
    };
    let r = type_of(&mut cx, &e);
    match r {
        Err(Error::NotAssignable { span, .. }) => assert_eq!(span.lo, 10),
        _ => panic!("cast between number and string must fail"),
    }
    // A cast to a supertype is fine.
    let ok = Expr::TsAs {
        span: sp(20),
        expr: Box::new(Expr::Lit { span: sp(21), lit: LitValue::Num(1) }),
        to: kw(22, KeywordKind::Number),
    };
    assert!(type_of(&mut cx, &ok).is_ok());
}

fn bodyless_method(n: u32, name: &str) -> ts_checker::ast::ClassMember {
    ts_checker::ast::ClassMember::Method {
        span: sp(n),
        key: ts_checker::ast::MemberKey::Plain(PropKey::Ident {
            span: sp(n),
            name: name.to_string(),
        }),
        kind: ts_checker::ast::MethodKind::Normal,
        func: ts_checker::ast::FnData {
            span: sp(n),
            params: Vec::new(),
            type_params: Vec::new(),
            return_type: None,
            body: None,
        },
    }
}

fn method_with_body(n: u32, name: &str) -> ts_checker::ast::ClassMember {
    ts_checker::ast::ClassMember::Method {
        span: sp(n),
        key: ts_checker::ast::MemberKey::Plain(PropKey::Ident {
            span: sp(n),
            name: name.to_string(),
        }),
        kind: ts_checker::ast::MethodKind::Normal,
        func: ts_checker::ast::FnData {
            span: sp(n),
            params: Vec::new(),
            type_params: Vec::new(),
            return_type: None,
            body: Some(Vec::new()),
        },
    }
}

#[test]
fn bodyless_method_alone_is_missing_implementation() {
    // class C { foo(); } -> one missing-implementation diagnostic at foo.
    let body = vec![bodyless_method(5, "foo")];
    let errs = validate_class_members(&body, false);
    assert_eq!(errs.len(), 1);
    match &errs[0] {
        Error::FnImplMissing { span } => assert_eq!(span.lo, 5),
        _ => panic!("expected a missing function implementation"),
    }
}

#[test]
fn overload_group_with_implementation_is_clean() {
    // class C { foo(); foo(x); foo(x) {} } -> no diagnostics.
    let body = vec![
        bodyless_method(1, "foo"),
        bodyless_method(2, "foo"),
        method_with_body(3, "foo"),
    ];
    let errs = validate_class_members(&body, false);
    assert_eq!(errs.len(), 0);
    // Removing the implementation raises exactly one diagnostic, at
    // the last signature.
    let body2 = vec![bodyless_method(1, "foo"), bodyless_method(2, "foo")];
    let errs2 = validate_class_members(&body2, false);
    assert_eq!(errs2.len(), 1);
    match &errs2[0] {
        Error::FnImplMissing { span } => assert_eq!(span.lo, 2),
        _ => panic!("expected a missing function implementation"),
    }
    // An ambient class is not checked.
    let body3 = vec![bodyless_method(1, "foo")];
    assert_eq!(validate_class_members(&body3, true).len(), 0);
}

#[test]
fn required_after_optional_is_an_error() {
    // function f(a?: number, b: number) -> one diagnostic at b.
    let ps = vec![
        Param { span: sp(1), name: "a".to_string(), optional: true, ty: Some(kw(2, KeywordKind::Number)) },
        Param { span: sp(3), name: "b".to_string(), optional: false, ty: Some(kw(4, KeywordKind::Number)) },
    ];
    let errs = validate_optional_order(&ps);
    assert_eq!(errs.len(), 1);
    match &errs[0] {
        Error::OptionalAfterRequired { span } => assert_eq!(span.lo, 3),
        _ => panic!("expected an optional-order diagnostic"),
    }
    // The well-ordered list is clean.
    let ok = vec![
        Param { span: sp(1), name: "a".to_string(), optional: false, ty: None },
        Param { span: sp(3), name: "b".to_string(), optional: true, ty: None },
    ];
    assert_eq!(validate_optional_order(&ok).len(), 0);
}

#[test]
fn numeric_key_matches_its_decimal_text() {
    let k1 = PropKey::NumKey { span: sp(0), value: 10 };
    let k2 = PropKey::StrKey { span: sp(1), value: "10".to_string() };
    let k3 = PropKey::StrKey { span: sp(2), value: "1".to_string() };
    assert!(is_prop_name_eq(&k1, &k2));
    assert!(!is_prop_name_eq(&k1, &k3));
}

#[test]
fn enum_member_access_yields_variant() {
    // E.A is the enum variant E::A.
    let mut cx = empty_cx();
    add_var(
        &mut cx.scopes,
        "unused".to_string(),
        VarInfo { kind: ts_checker::ast::VarDeclKind::Let, ty: None, initialized: true, copied: false },
    );
    let e = Type::Enum {
        span: sp(0),
        name: "E".to_string(),
        members: vec![ts_checker::ty::EnumMember { span: sp(1), name: "A".to_string(), init: None }],
    };
    let r = access_property(&cx, sp(9), &e, &"A".to_string()).unwrap();
    match r {
        Type::EnumVariant { enum_name, name, .. } => {
            assert_eq!(enum_name, "E");
            assert_eq!(name, "A");
        },
        _ => panic!("expected an enum variant"),
    }
}

#[test]
fn assignment_narrowing_installs_widened_fact() {
    // let x: string | number; x = 1; then x reads as number inside the
    // scope; the fact is dropped with its frame.
    let mut cx = empty_cx();
    let declared = union_of(sp(1), vec![kw(2, KeywordKind::Str), kw(3, KeywordKind::Number)]);
    add_var(
        &mut cx.scopes,
        "x".to_string(),
        VarInfo {
            kind: ts_checker::ast::VarDeclKind::Let,
            ty: Some(dup_ty(&declared)),
            initialized: false,
            copied: false,
        },
    );
    let rhs = num_lit(4, 1);
    assert!(is_assignable(&rhs, &declared));
    add_fact(&mut cx.scopes, "x".to_string(), widen(rhs));
    let t = ident_type(&cx, sp(5), &"x".to_string()).unwrap();
    assert!(eq_ignore_span(&t, &kw(9, KeywordKind::Number)));
    // An ill-typed assignment is rejected.
    let bad = str_lit(6, "a");
    let r = check_assignable(&bad, &kw(7, KeywordKind::Number), sp(8));
    assert!(r.is_err());
}

#[test]
fn analysis_results_are_reproducible() {
    // The same expression typed twice gives equal results.
    let mut cx1 = empty_cx();
    let mut cx2 = empty_cx();
    let e = Expr::Unary {
        span: sp(0),
        op: ts_checker::ast::UnaryOp::Not,
        arg: Box::new(Expr::Lit { span: sp(1), lit: LitValue::Num(3) }),
    };
    let r1 = type_of(&mut cx1, &e).unwrap();
    let r2 = type_of(&mut cx2, &e).unwrap();
    assert!(eq_ignore_span(&r1, &r2));
}

#[test]
fn call_extraction_checks_arity() {
    // A function called with too many arguments reports the count.
    let f = Type::Function {
        span: sp(0),
        params: vec![ts_checker::ty::FnParam {
            span: sp(1),
            name: "a".to_string(),
            optional: false,
            ty: Some(Box::new(kw(2, KeywordKind::Number))),
        }],
        type_params: Vec::new(),
        ret: Box::new(kw(3, KeywordKind::Str)),
    };
    let cx = empty_cx();
    let no_targs: Vec<Type> = Vec::new();
    let ok = ts_checker::expr::extract(&cx, sp(9), &f, ExtractKind::Call, 1, &no_targs).unwrap();
    assert!(eq_ignore_span(&ok, &kw(9, KeywordKind::Str)));
    match ts_checker::expr::extract(&cx, sp(9), &f, ExtractKind::Call, 3, &no_targs) {
        Err(Error::WrongParams { min, max, actual, .. }) => {
            assert_eq!(min, 1);
            assert_eq!(max, 1);
            assert_eq!(actual, 3);
        },
        _ => panic!("expected a parameter-count diagnostic"),
    }
}

#[test]
fn error_equality_is_structural() {
    let a = Error::UndefinedSymbol { span: sp(3) };
    let b = Error::UndefinedSymbol { span: sp(3) };
    let c = Error::UndefinedSymbol { span: sp(4) };
    assert!(err_eq(&a, &b));
    assert!(!err_eq(&a, &c));
}
