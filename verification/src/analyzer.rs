//! The analyzer: a fold over module items that updates the scope
//! stack, the export table and the error list, together with the
//! driver that merges resolved imports and analyzes a module.

use vstd::prelude::*;

use crate::ast::{
    AssignTarget, Expr, ImportInfo, Module, ModuleItem, Specifier, Stmt, VarDecl, VarDeclKind,
    VarDeclarator,
};
use crate::class::{
    spec_class_group_errors, spec_ctor_prop_errors, spec_getter_errors,
    spec_optional_order_errors, validate_class_members, validate_ctor_props, validate_getters,
    validate_optional_order,
};
use crate::errors::{view_err, view_errs, Error, ErrorV};
use crate::expr::{
    class_type, fix_type, kw, res_v, spec_class_type, spec_fix_type, spec_type_of, type_of,
};
use crate::scope::{
    add_fact, add_type, add_var, assoc_ty, assoc_var, find_type, find_type_v, find_var,
    find_var_v, lookup_ty, new_frame, pop_scope, push_scope, view_frames, view_ty_entries,
    with_fact_v, with_type_v, with_var_v, Cx, CxV, ScopeFrame, ScopeKind, VarInfo, VarInfoV,
};
use crate::ty::{
    dup_string, dup_ty, span_of, span_of_v, view_enum_members, view_ty, widen, widen_v,
    KeywordKind, Span, Type, TypeV,
};

verus! {

/// Rule flags the conformance harness can set; none affect the core
/// yet, and analysis is identical for every value.
#[derive(Clone, Copy, Debug, PartialEq, Eq, Structural)]
pub struct Rule {
    pub no_implicit_any: bool,
}

/// The result of analyzing one module: its export table and its
/// diagnostics, in order.
#[derive(Debug)]
pub struct Info {
    pub exports: Vec<(String, Type)>,
    pub errors: Vec<Error>,
}

#[verifier::ext_equal]
pub ghost struct InfoV {
    pub exports: Seq<(Seq<char>, TypeV)>,
    pub errors: Seq<ErrorV>,
}

impl View for Info {
    type V = InfoV;

    open spec fn view(&self) -> InfoV {
        InfoV { exports: view_ty_entries(self.exports@), errors: view_errs(self.errors@) }
    }
}

/// The analyzer's state: the typing context, the module info under
/// construction, and the exports deferred for hoisting.
#[derive(Debug)]
pub struct Analyzer {
    pub cx: Cx,
    pub info: Info,
    pub pending_exports: Vec<(String, String, Span)>,
    /// The return types collected while the innermost function body is
    /// visited (§4.5).
    pub rets: Vec<Type>,
}

#[verifier::ext_equal]
pub ghost struct AnalyzerV {
    pub cx: CxV,
    pub exports: Seq<(Seq<char>, TypeV)>,
    pub errors: Seq<ErrorV>,
    pub pending: Seq<(Seq<char>, Seq<char>, Span)>,
    pub rets: Seq<TypeV>,
}

pub open spec fn view_pending(s: Seq<(String, String, Span)>) -> Seq<(Seq<char>, Seq<char>, Span)> {
    s.map_values(|e: (String, String, Span)| (e.0@, e.1@, e.2))
}

impl View for Analyzer {
    type V = AnalyzerV;

    open spec fn view(&self) -> AnalyzerV {
        AnalyzerV {
            cx: self.cx@,
            exports: view_ty_entries(self.info.exports@),
            errors: view_errs(self.info.errors@),
            pending: view_pending(self.pending_exports@),
            rets: crate::ty::view_tys(self.rets@),
        }
    }
}

// ------------------------------------------------------------------
// Small state transformers.
// ------------------------------------------------------------------

pub open spec fn with_err(a: AnalyzerV, e: ErrorV) -> AnalyzerV {
    AnalyzerV { errors: a.errors.push(e), ..a }
}

pub open spec fn with_errs(a: AnalyzerV, es: Seq<ErrorV>) -> AnalyzerV {
    AnalyzerV { errors: a.errors + es, ..a }
}

pub open spec fn with_scopes(a: AnalyzerV, scopes: Seq<crate::scope::FrameV>) -> AnalyzerV {
    AnalyzerV { cx: CxV { scopes, ..a.cx }, ..a }
}

/// Records one collected return type.
pub open spec fn with_ret(a: AnalyzerV, t: TypeV) -> AnalyzerV {
    AnalyzerV { rets: a.rets.push(t), ..a }
}

/// Replaces the return accumulator.
pub open spec fn with_rets(a: AnalyzerV, rs: Seq<TypeV>) -> AnalyzerV {
    AnalyzerV { rets: rs, ..a }
}

/// Appends one error.
fn push_err(a: &mut Analyzer, e: Error)
    ensures
        final(a)@ == with_err(old(a)@, e@),
{
    let ghost ev = e@;
    let ghost base = a.info.errors@;
    a.info.errors.push(e);
    proof {
        crate::errors::lemma_view_errs_snoc(base, a.info.errors@.last());
        assert(a.info.errors@ =~= base.push(a.info.errors@.last()));
        assert(view_errs(a.info.errors@) =~= view_errs(base).push(ev));
        assert(a@ =~= with_err(old(a)@, ev));
    }
}

/// Appends a list of errors.
fn push_errs(a: &mut Analyzer, es: Vec<Error>)
    ensures
        final(a)@ == with_errs(old(a)@, view_errs(es@)),
{
    let ghost base = a.info.errors@;
    let ghost esv = es@;
    let mut es2 = es;
    a.info.errors.append(&mut es2);
    proof {
        crate::errors::lemma_view_errs(a.info.errors@);
        crate::errors::lemma_view_errs(base);
        crate::errors::lemma_view_errs(esv);
        assert forall|j: int| 0 <= j < a.info.errors@.len() implies view_errs(
            a.info.errors@,
        )[j] == (view_errs(base) + view_errs(esv))[j] by {
            if j < base.len() {
                assert(a.info.errors@[j] == base[j]);
            } else {
                assert(a.info.errors@[j] == esv[j - base.len()]);
            }
        }
        assert(view_errs(a.info.errors@) =~= view_errs(base) + view_errs(esv));
        assert(a@ =~= with_errs(old(a)@, view_errs(esv)));
    }
}

// ------------------------------------------------------------------
// Declaration and narrowing (§4.5, §4.6).
// ------------------------------------------------------------------

/// Declares a binding in the innermost frame. Without
/// `allow_multiple`, an existing binding of the name in that frame is
/// a redeclaration error.
pub open spec fn spec_declare_var(
    a: AnalyzerV,
    kind: VarDeclKind,
    name: Seq<char>,
    ty: Option<TypeV>,
    initialized: bool,
    allow_multiple: bool,
    span: Span,
) -> AnalyzerV {
    if a.cx.scopes.len() == 0 {
        a
    } else {
        let top = a.cx.scopes.last();
        if !allow_multiple && (assoc_var(top.vars, name) is Some) {
            with_err(a, ErrorV::Redeclared { span })
        } else {
            with_scopes(
                a,
                with_var_v(
                    a.cx.scopes,
                    name,
                    VarInfoV { kind, ty, initialized, copied: false },
                ),
            )
        }
    }
}

/// Registers a type binding in the innermost frame.
pub open spec fn spec_register_type(a: AnalyzerV, name: Seq<char>, t: TypeV) -> AnalyzerV {
    if a.cx.scopes.len() == 0 {
        a
    } else {
        with_scopes(a, with_type_v(a.cx.scopes, name, t))
    }
}

/// Assignment narrowing (§4.6). A well-typed assignment to a name
/// bound in the innermost scope refines that binding to the widened
/// right-hand type; one to a name bound only in a parent scope
/// inserts a copied binding (`copied` set) with the refined type into
/// the innermost scope, leaving the parent untouched. An ill-typed
/// assignment is an error; an unbound name is an undefined symbol at
/// the identifier; a binding with no recorded type is not refined.
pub open spec fn spec_try_assign(
    a: AnalyzerV,
    span: Span,
    ispan: Span,
    name: Seq<char>,
    rhs: TypeV,
) -> AnalyzerV {
    if a.cx.scopes.len() == 0 {
        a
    } else {
        let local = assoc_var(a.cx.scopes.last().vars, name);
        match (match local {
            Option::Some(vi) => Option::Some((vi, false)),
            Option::None => match find_var_v(a.cx.scopes, name) {
                Option::Some(vi) => Option::Some((vi, true)),
                Option::None => Option::None,
            },
        }) {
            Option::Some((vi, from_parent)) => match vi.ty {
                Option::Some(declared) => if crate::assign::assignable(rhs, declared) {
                    with_scopes(
                        a,
                        with_var_v(
                            a.cx.scopes,
                            name,
                            VarInfoV {
                                kind: vi.kind,
                                ty: Option::Some(widen_v(rhs)),
                                initialized: true,
                                copied: from_parent,
                            },
                        ),
                    )
                } else {
                    with_err(
                        a,
                        ErrorV::NotAssignable {
                            span,
                            source: span_of_v(rhs),
                            target: span_of_v(declared),
                        },
                    )
                },
                Option::None => a,
            },
            Option::None => with_err(a, ErrorV::UndefinedSymbol { span: ispan }),
        }
    }
}

// ------------------------------------------------------------------
// The statement fold.
// ------------------------------------------------------------------

/// One variable declarator (§4.5).
pub open spec fn spec_visit_decl(
    a: AnalyzerV,
    d: VarDeclarator,
    kind: VarDeclKind,
    ambient: bool,
) -> AnalyzerV
    decreases d, 0nat,
{
    match d.init {
        Option::Some(init) => match spec_type_of(a.cx, init) {
            Result::Err(e) => with_err(a, e),
            Result::Ok(vt) => match d.ty {
                Option::Some(ann) => match spec_fix_type(a.cx, d.span, view_ty(ann), true) {
                    Result::Err(e) => with_err(a, e),
                    Result::Ok(annt) => if crate::assign::assignable(vt, annt) {
                        spec_declare_var(
                            a,
                            kind,
                            d.name@,
                            Option::Some(annt),
                            true,
                            kind == VarDeclKind::Var,
                            d.name_span,
                        )
                    } else {
                        spec_declare_var(
                            with_err(
                                a,
                                ErrorV::NotAssignable {
                                    span: d.span,
                                    source: span_of_v(vt),
                                    target: span_of_v(annt),
                                },
                            ),
                            kind,
                            d.name@,
                            Option::Some(annt),
                            true,
                            kind == VarDeclKind::Var,
                            d.name_span,
                        )
                    },
                },
                Option::None => spec_declare_var(
                    a,
                    kind,
                    d.name@,
                    Option::Some(widen_v(vt)),
                    true,
                    kind == VarDeclKind::Var,
                    d.name_span,
                ),
            },
        },
        Option::None => match d.ty {
            Option::Some(ann) => match spec_fix_type(a.cx, d.span, view_ty(ann), true) {
                Result::Err(e) => with_err(a, e),
                Result::Ok(annt) => spec_declare_var(
                    a,
                    kind,
                    d.name@,
                    Option::Some(annt),
                    ambient,
                    kind == VarDeclKind::Var,
                    d.name_span,
                ),
            },
            Option::None => spec_declare_var(
                a,
                kind,
                d.name@,
                Option::None,
                ambient,
                kind == VarDeclKind::Var,
                d.name_span,
            ),
        },
    }
}

pub open spec fn spec_visit_decls(
    a: AnalyzerV,
    ds: Seq<VarDeclarator>,
    kind: VarDeclKind,
    ambient: bool,
) -> AnalyzerV
    decreases ds, 1nat,
{
    if ds.len() == 0 {
        a
    } else {
        spec_visit_decls(spec_visit_decl(a, ds[0], kind, ambient), ds.drop_first(), kind, ambient)
    }
}

/// One statement (§4.5, §4.6).
pub open spec fn spec_visit_stmt(a: AnalyzerV, s: Stmt) -> AnalyzerV
    decreases s, 2nat,
{
    match s {
        Stmt::ExprStmt { span, expr } => match expr {
            Expr::Assign { span: aspan, target, right } => match spec_type_of(a.cx, *right) {
                Result::Err(e) => with_err(a, e),
                Result::Ok(rhs) => match target {
                    AssignTarget::Ident { span: ispan, name } => spec_try_assign(
                        a,
                        aspan,
                        ispan,
                        name@,
                        rhs,
                    ),
                    AssignTarget::Member { .. } => a,
                    AssignTarget::Other { span: ospan } => with_err(
                        a,
                        ErrorV::Unsupported { span: ospan },
                    ),
                },
            },
            other => match spec_type_of(a.cx, other) {
                Result::Err(e) => with_err(a, e),
                Result::Ok(..) => a,
            },
        },
        Stmt::Block { stmts, .. } => {
            let a1 = with_scopes(a, a.cx.scopes.push(block_frame()));
            let a2 = spec_visit_stmts(a1, stmts@);
            spec_pop(a2)
        },
        Stmt::If { test, cons, alt, .. } => {
            let a1 = (match spec_type_of(a.cx, test) {
                Result::Err(e) => with_err(a, e),
                Result::Ok(..) => a,
            });
            let a2 = with_scopes(a1, a1.cx.scopes.push(block_frame()));
            let a3 = spec_visit_stmt(a2, *cons);
            let a4 = spec_pop(a3);
            match alt {
                Option::Some(ealt) => {
                    let a5 = with_scopes(a4, a4.cx.scopes.push(block_frame()));
                    let a6 = spec_visit_stmt(a5, *ealt);
                    spec_pop(a6)
                },
                Option::None => a4,
            }
        },
        Stmt::Return { span: rspan, arg } => match arg {
            Option::Some(e) => match spec_type_of(a.cx, e) {
                Result::Err(err) => with_err(a, err),
                Result::Ok(t) => with_ret(a, t),
            },
            Option::None => with_ret(a, kw(rspan, KeywordKind::Undefined)),
        },
        Stmt::VarDeclStmt { decl } => spec_visit_decls(a, decl.decls@, decl.kind, decl.declare),
        Stmt::FnDecl { span, name, name_span, func, .. } => {
            let a1 = with_errs(a, spec_optional_order_errors(func.params@));
            let (a2, t) = spec_visit_fn(a1, span, Option::Some(name@), func);
            spec_declare_var(
                a2,
                VarDeclKind::Var,
                name@,
                Option::Some(t),
                true,
                true,
                name_span,
            )
        },
        Stmt::ClassDecl { span, name, name_span, declare, class } => {
            let errs = spec_class_group_errors(class.body@, declare) + spec_ctor_prop_errors(
                class.body@,
            ) + spec_getter_errors(class.body@) + spec_class_param_order_errors(class.body@);
            let ty = spec_class_type(span, Option::Some(name@), class.body@);
            let a1 = with_errs(a, errs);
            let a2 = spec_register_type(a1, name@, ty);
            let a3 = spec_declare_var(
                a2,
                VarDeclKind::Var,
                name@,
                Option::Some(ty),
                true,
                false,
                name_span,
            );
            let a4 = with_scopes(a3, a3.cx.scopes.push(class_frame(ty)));
            let a5 = spec_visit_class_members(a4, class.body@);
            spec_pop(a5)
        },
        Stmt::EnumDecl { span, name, members } => spec_register_type(
            a,
            name@,
            TypeV::Enum { span, name: name@, members: view_enum_members(members@) },
        ),
        Stmt::InterfaceDecl { span, name, type_params, body, parents } => spec_register_type(
            a,
            name@,
            TypeV::Interface {
                span,
                name: name@,
                type_params: crate::ty::view_type_params(type_params@),
                body: crate::ty::view_elems(body@),
                parents: crate::ty::view_strings(parents@),
            },
        ),
        Stmt::TypeAliasDecl { span, name, type_params, ty } => match spec_fix_type(
            a.cx,
            span,
            view_ty(ty),
            false,
        ) {
            Result::Err(e) => spec_register_type(
                with_err(a, e),
                name@,
                TypeV::Alias {
                    span,
                    ty: Box::new(kw(span, KeywordKind::Any)),
                    type_params: crate::ty::view_type_params(type_params@),
                },
            ),
            Result::Ok(t) => spec_register_type(
                a,
                name@,
                TypeV::Alias {
                    span,
                    ty: Box::new(t),
                    type_params: crate::ty::view_type_params(type_params@),
                },
            ),
        },
        Stmt::Empty { .. } => a,
    }
}

/// Dropping the innermost frame.
pub open spec fn spec_pop(a: AnalyzerV) -> AnalyzerV {
    if a.cx.scopes.len() == 0 {
        a
    } else {
        with_scopes(a, a.cx.scopes.drop_last())
    }
}

pub open spec fn block_frame() -> crate::scope::FrameV {
    crate::scope::FrameV {
        kind: ScopeKind::Block,
        vars: Seq::empty(),
        types: Seq::empty(),
        facts: Seq::empty(),
        this_ty: Option::None,
    }
}

pub open spec fn spec_visit_stmts(a: AnalyzerV, ss: Seq<Stmt>) -> AnalyzerV
    decreases ss, 3nat,
{
    if ss.len() == 0 {
        a
    } else {
        spec_visit_stmts(spec_visit_stmt(a, ss[0]), ss.drop_first())
    }
}

/// The scope frame a class body is visited in: `this` is the class
/// type (§4.5).
pub open spec fn class_frame(ty: TypeV) -> crate::scope::FrameV {
    crate::scope::FrameV {
        kind: ScopeKind::Class,
        vars: Seq::empty(),
        types: Seq::empty(),
        facts: Seq::empty(),
        this_ty: Option::Some(ty),
    }
}

/// Function visiting (§4.5): the function scope is pushed, the body
/// is folded with return collection enabled, the collected returns
/// are checked against the expanded declared return type, and the
/// function's type is produced. A bodyless function with no
/// annotation has an `any` return.
pub open spec fn spec_visit_fn(
    a: AnalyzerV,
    span: Span,
    name: Option<Seq<char>>,
    func: crate::ast::FnData,
) -> (AnalyzerV, TypeV)
    decreases func, 6nat,
{
    let a1 = with_scopes(a, a.cx.scopes.push(crate::expr::fn_frame(name, span, func)));
    let outer = a1.rets;
    let a2 = with_rets(a1, Seq::empty());
    let a3 = (match func.body {
        Option::Some(stmts) => spec_visit_stmts(a2, stmts@),
        Option::None => a2,
    });
    let da = (match func.return_type {
        Option::Some(t) => match spec_fix_type(a3.cx, span, view_ty(t), false) {
            Result::Ok(d) => (a3, Option::Some(d)),
            Result::Err(e) => (with_err(a3, e), Option::<TypeV>::None),
        },
        Option::None => (a3, Option::<TypeV>::None),
    });
    let a4 = da.0;
    let decl = da.1;
    let rets = a4.rets;
    let a5 = (if (decl matches Option::Some(d)) && !crate::expr::rets_all_assignable(
        rets,
        decl->0,
    ) {
        with_err(
            a4,
            ErrorV::NotAssignable { span, source: span, target: span_of_v(decl->0) },
        )
    } else {
        a4
    });
    let ret = (match decl {
        Option::Some(d) => d,
        Option::None => if func.body is None {
            kw(span, KeywordKind::Any)
        } else {
            crate::expr::collapse_returns(span, rets)
        },
    });
    let t = TypeV::Function {
        span,
        params: crate::expr::view_ast_params(func.params@),
        type_params: crate::ty::view_type_params(func.type_params@),
        ret: Box::new(ret),
    };
    (with_rets(spec_pop(a5), outer), t)
}

/// The bindings a constructor's parameters contribute.
pub open spec fn ctor_param_bindings(ps: Seq<crate::ast::CtorParam>) -> Seq<(
    Seq<char>,
    VarInfoV,
)>
    decreases ps.len(),
{
    if ps.len() == 0 {
        Seq::empty()
    } else {
        crate::expr::param_bindings(seq![ps[0].param]) + ctor_param_bindings(ps.drop_first())
    }
}

/// The scope frame a constructor body is visited in.
pub open spec fn ctor_frame(ps: Seq<crate::ast::CtorParam>) -> crate::scope::FrameV {
    crate::scope::FrameV {
        kind: ScopeKind::Fn,
        vars: ctor_param_bindings(ps),
        types: Seq::empty(),
        facts: Seq::empty(),
        this_ty: Option::None,
    }
}

/// The parameter-order scan over constructor parameters.
pub open spec fn ctor_opt_order_scan(ps: Seq<crate::ast::CtorParam>, has_opt: bool) -> Seq<
    ErrorV,
>
    decreases ps.len(),
{
    if ps.len() == 0 {
        Seq::empty()
    } else {
        (if !ps[0].param.optional && has_opt {
            seq![ErrorV::OptionalAfterRequired { span: ps[0].param.span }]
        } else {
            Seq::empty()
        }) + ctor_opt_order_scan(ps.drop_first(), has_opt || ps[0].param.optional)
    }
}

/// A required parameter after an optional one, in every method and
/// constructor of a class body (§4.5).
pub open spec fn spec_class_param_order_errors(ms: Seq<crate::ast::ClassMember>) -> Seq<ErrorV>
    decreases ms.len(),
{
    if ms.len() == 0 {
        Seq::empty()
    } else {
        (match ms[0] {
            crate::ast::ClassMember::Method { func, .. } => spec_optional_order_errors(
                func.params@,
            ),
            crate::ast::ClassMember::Constructor { params, .. } => ctor_opt_order_scan(
                params@,
                false,
            ),
            _ => Seq::empty(),
        }) + spec_class_param_order_errors(ms.drop_first())
    }
}

/// Is the key expression an access on `Symbol`?
pub open spec fn is_symbol_access(e: Expr) -> bool {
    e matches Expr::Member { obj, .. } && (*obj matches Expr::Ident { name, .. } && name@
        == "Symbol"@)
}

/// Computed property key validation (§4.5): the key must evaluate to
/// a literal type, a symbol access, or `any`; the diagnostics raised
/// at one key are grouped (§7).
pub open spec fn spec_computed_key(a: AnalyzerV, kspan: Span, e: Expr) -> AnalyzerV {
    let te = (match spec_type_of(a.cx, e) {
        Result::Err(err) => (seq![err], Option::<TypeV>::None),
        Result::Ok(t) => (Seq::<ErrorV>::empty(), Option::Some(t)),
    });
    let ok = (match te.1 {
        Option::Some(t) => t matches TypeV::Lit { .. } || t matches TypeV::Keyword {
            kind: KeywordKind::Any,
            ..
        } || is_symbol_access(e),
        Option::None => true,
    });
    let errs = te.0 + (if ok {
        Seq::<ErrorV>::empty()
    } else {
        seq![ErrorV::ComputedKeyNotLiteral { span: kspan }]
    });
    if errs.len() > 0 {
        with_err(a, ErrorV::Grouped { span: kspan, errors: errs })
    } else {
        a
    }
}

/// The key check a member owes: only computed keys are checked.
pub open spec fn spec_member_key_check(a: AnalyzerV, key: crate::ast::MemberKey) -> AnalyzerV {
    match key {
        crate::ast::MemberKey::Computed { span, expr } => spec_computed_key(a, span, *expr),
        crate::ast::MemberKey::Plain(..) => a,
    }
}

/// One class member's body (§4.5): methods and constructors are
/// visited in their own function scope; property values are typed;
/// computed keys are validated.
pub open spec fn spec_visit_class_member(a: AnalyzerV, m: crate::ast::ClassMember) -> AnalyzerV
    decreases m, 8nat,
{
    match m {
        crate::ast::ClassMember::Method { span, key, func, .. } => {
            let a1 = spec_member_key_check(a, key);
            spec_visit_fn(a1, span, Option::None, func).0
        },
        crate::ast::ClassMember::Constructor { params, body, .. } => match body {
            Option::Some(stmts) => {
                let a1 = with_scopes(a, a.cx.scopes.push(ctor_frame(params@)));
                let outer = a1.rets;
                let a2 = with_rets(a1, Seq::empty());
                let a3 = spec_visit_stmts(a2, stmts@);
                with_rets(spec_pop(a3), outer)
            },
            Option::None => a,
        },
        crate::ast::ClassMember::Prop { key, ty, value, .. } => {
            let a1 = spec_member_key_check(a, key);
            let a2 = (match ty {
                Option::Some(ann) => match spec_fix_type(
                    a1.cx,
                    crate::ty::span_of_v(view_ty(ann)),
                    view_ty(ann),
                    false,
                ) {
                    Result::Err(e) => with_err(a1, e),
                    Result::Ok(..) => a1,
                },
                Option::None => a1,
            });
            match value {
                Option::Some(v) => match spec_type_of(a2.cx, *v) {
                    Result::Err(e) => with_err(a2, e),
                    Result::Ok(..) => a2,
                },
                Option::None => a2,
            }
        },
        crate::ast::ClassMember::IndexSig { .. } => a,
    }
}

pub open spec fn spec_visit_class_members(
    a: AnalyzerV,
    ms: Seq<crate::ast::ClassMember>,
) -> AnalyzerV
    decreases ms, 9nat,
{
    if ms.len() == 0 {
        a
    } else {
        spec_visit_class_members(spec_visit_class_member(a, ms[0]), ms.drop_first())
    }
}

// ------------------------------------------------------------------
// Exports (§4.8).
// ------------------------------------------------------------------

/// Records one export; exporting a name twice is a diagnostic.
pub open spec fn spec_export_one(
    a: AnalyzerV,
    name: Seq<char>,
    t: TypeV,
    span: Span,
) -> AnalyzerV {
    if assoc_ty(a.exports, name) is Some {
        with_err(a, ErrorV::Redeclared { span })
    } else {
        AnalyzerV { exports: a.exports.push((name, t)), ..a }
    }
}

/// Exports a declared name by looking it up: type bindings first,
/// then variable bindings; an unbound name is an undefined symbol.
pub open spec fn spec_export_name(a: AnalyzerV, name: Seq<char>, span: Span) -> AnalyzerV {
    match find_type_v(a.cx.scopes, name) {
        Option::Some(t) => spec_export_one(a, name, t, span),
        Option::None => match find_var_v(a.cx.scopes, name) {
            Option::Some(vi) => match vi.ty {
                Option::Some(t) => spec_export_one(a, name, t, span),
                Option::None => spec_export_one(a, name, kw(span, KeywordKind::Any), span),
            },
            Option::None => with_err(a, ErrorV::UndefinedSymbol { span }),
        },
    }
}

pub open spec fn spec_export_decl_names(a: AnalyzerV, s: Stmt) -> AnalyzerV {
    match s {
        Stmt::FnDecl { name, name_span, .. } => spec_export_name(a, name@, name_span),
        Stmt::ClassDecl { name, name_span, .. } => spec_export_name(a, name@, name_span),
        Stmt::EnumDecl { span, name, .. } => spec_export_name(a, name@, span),
        Stmt::InterfaceDecl { span, name, .. } => spec_export_name(a, name@, span),
        Stmt::TypeAliasDecl { span, name, .. } => spec_export_name(a, name@, span),
        Stmt::VarDeclStmt { decl } => spec_export_decl_vars(a, decl.decls@),
        _ => a,
    }
}

pub open spec fn spec_export_decl_vars(a: AnalyzerV, ds: Seq<VarDeclarator>) -> AnalyzerV
    decreases ds.len(),
{
    if ds.len() == 0 {
        a
    } else {
        spec_export_decl_vars(
            spec_export_name(a, ds[0].name@, ds[0].name_span),
            ds.drop_first(),
        )
    }
}

/// One module item.
pub open spec fn spec_visit_item(a: AnalyzerV, item: ModuleItem) -> AnalyzerV
    decreases item,
{
    match item {
        ModuleItem::Stmt(s) => spec_visit_stmt(a, s),
        ModuleItem::Import { .. } => a,
        ModuleItem::ExportDecl { decl, .. } => {
            let a1 = spec_visit_stmt(a, decl);
            spec_export_decl_names(a1, decl)
        },
        ModuleItem::ExportDefaultExpr { span, expr } => match spec_type_of(a.cx, expr) {
            Result::Ok(t) => spec_export_one(a, "default"@, t, span),
            Result::Err(ErrorV::UndefinedSymbol { .. }) => match expr {
                Expr::Ident { name, .. } => AnalyzerV {
                    pending: a.pending.push(("default"@, name@, span)),
                    ..a
                },
                _ => with_err(a, ErrorV::UndefinedSymbol { span }),
            },
            Result::Err(e) => with_err(a, e),
        },
    }
}

pub open spec fn spec_visit_items(a: AnalyzerV, items: Seq<ModuleItem>) -> AnalyzerV
    decreases items,
{
    if items.len() == 0 {
        a
    } else {
        spec_visit_items(spec_visit_item(a, items[0]), items.drop_first())
    }
}

/// Resolution of deferred exports at end of module (§4.8): a pending
/// name found in the final scope is exported; an absent one does
/// nothing.
pub open spec fn spec_handle_pending(
    a: AnalyzerV,
    pend: Seq<(Seq<char>, Seq<char>, Span)>,
) -> AnalyzerV
    decreases pend.len(),
{
    if pend.len() == 0 {
        a
    } else {
        let (ename, local, span) = pend[0];
        let a1 = (match find_type_v(a.cx.scopes, local) {
            Option::Some(t) => spec_export_one(a, ename, t, span),
            Option::None => match find_var_v(a.cx.scopes, local) {
                Option::Some(vi) => match vi.ty {
                    Option::Some(t) => spec_export_one(a, ename, t, span),
                    Option::None => a,
                },
                Option::None => a,
            },
        });
        spec_handle_pending(a1, pend.drop_first())
    }
}

// ------------------------------------------------------------------
// Imports (§4.8) and the driver.
// ------------------------------------------------------------------

/// One resolved binding: a duplicate local name raises a diagnostic,
/// and the later binding wins (§5).
pub open spec fn spec_add_import_bindings(
    a: AnalyzerV,
    entries: Seq<(String, Type)>,
    span: Span,
) -> AnalyzerV
    decreases entries.len(),
{
    if entries.len() == 0 {
        a
    } else {
        let name = entries[0].0@;
        let a1 = (if assoc_ty(a.cx.imports, name) is Some {
            with_err(a, ErrorV::Redeclared { span })
        } else {
            a
        });
        let a2 = AnalyzerV {
            cx: CxV {
                imports: a1.cx.imports.push((name, view_ty(entries[0].1))),
                ..a1.cx
            },
            ..a1
        };
        spec_add_import_bindings(a2, entries.drop_first(), span)
    }
}

/// Merging one import result: a resolved import adds its bindings (a
/// duplicate local name is a diagnostic and the later binding wins);
/// a failed one records the loader's error and binds every requested
/// local name to `any` so downstream errors do not cascade.
pub open spec fn spec_merge_import(
    a: AnalyzerV,
    import: ImportInfo,
    res: Result<Vec<(String, Type)>, Error>,
) -> AnalyzerV {
    match res {
        Result::Ok(map) => spec_add_import_bindings(a, map@, import.span),
        Result::Err(e) => {
            let a1 = with_err(a, view_err(e));
            AnalyzerV {
                cx: CxV {
                    imports: a1.cx.imports + locals_as_any(import.items@, import.span),
                    ..a1.cx
                },
                ..a1
            }
        },
    }
}

pub open spec fn locals_as_any(items: Seq<Specifier>, span: Span) -> Seq<(Seq<char>, TypeV)> {
    items.map_values(|s: Specifier| (s.local.0@, kw(span, KeywordKind::Any)))
}

pub open spec fn spec_merge_imports(
    a: AnalyzerV,
    results: Seq<(ImportInfo, Result<Vec<(String, Type)>, Error>)>,
) -> AnalyzerV
    decreases results.len(),
{
    if results.len() == 0 {
        a
    } else {
        spec_merge_imports(
            spec_merge_import(a, results[0].0, results[0].1),
            results.drop_first(),
        )
    }
}

pub open spec fn module_frame() -> crate::scope::FrameV {
    crate::scope::FrameV {
        kind: ScopeKind::Module,
        vars: Seq::empty(),
        types: Seq::empty(),
        facts: Seq::empty(),
        this_ty: Option::None,
    }
}

pub open spec fn init_analyzer(libs: Seq<(Seq<char>, TypeV)>) -> AnalyzerV {
    AnalyzerV {
        cx: CxV { scopes: seq![module_frame()], imports: Seq::empty(), libs },
        exports: Seq::empty(),
        errors: Seq::empty(),
        pending: Seq::empty(),
        rets: Seq::empty(),
    }
}

/// The analysis of one module, given the outcome of resolving each of
/// its imports: merge the import results, fold over the items, then
/// resolve the deferred exports.
pub open spec fn spec_analyze(
    libs: Seq<(Seq<char>, TypeV)>,
    m: Module,
    results: Seq<(ImportInfo, Result<Vec<(String, Type)>, Error>)>,
) -> InfoV {
    let a0 = init_analyzer(libs);
    let a1 = spec_merge_imports(a0, results);
    let a2 = spec_visit_items(a1, m.items@);
    let a3 = spec_handle_pending(a2, a2.pending);
    InfoV { exports: a3.exports, errors: a3.errors }
}

// ------------------------------------------------------------------
// The executable analyzer.
// ------------------------------------------------------------------

fn declare_var_exec(
    a: &mut Analyzer,
    kind: VarDeclKind,
    name: String,
    ty: Option<Type>,
    initialized: bool,
    allow_multiple: bool,
    span: Span,
)
    ensures
        final(a)@ == spec_declare_var(
            old(a)@,
            kind,
            name@,
            match ty {
                Option::Some(t) => Option::Some(view_ty(t)),
                Option::None => Option::None,
            },
            initialized,
            allow_multiple,
            span,
        ),
{
    let ghost tyv: Option<TypeV> = (match &ty {
        Option::Some(t) => Option::Some(view_ty(*t)),
        Option::None => Option::None,
    });
    if a.cx.scopes.len() == 0 {
        return;
    }
    let dup_in_top: bool = if allow_multiple {
        false
    } else {
        let n = a.cx.scopes.len();
        match crate::scope::lookup_var(&a.cx.scopes[n - 1].vars, &name) {
            Option::Some(..) => true,
            Option::None => false,
        }
    };
    proof {
        assert(view_frames(a.cx.scopes@).last() == a.cx.scopes@.last()@);
    }
    if dup_in_top {
        push_err(a, Error::Redeclared { span });
    } else {
        add_var(
            &mut a.cx.scopes,
            name,
            VarInfo { kind, ty, initialized, copied: false },
        );
        proof {
            assert(a@ =~= spec_declare_var(
                old(a)@,
                kind,
                name@,
                tyv,
                initialized,
                allow_multiple,
                span,
            ));
        }
    }
}

fn register_type_exec(a: &mut Analyzer, name: String, t: Type)
    ensures
        final(a)@ == spec_register_type(old(a)@, name@, t@),
{
    if a.cx.scopes.len() == 0 {
        return;
    }
    let ghost tv = t@;
    add_type(&mut a.cx.scopes, name, t);
    proof {
        assert(a@ =~= spec_register_type(old(a)@, name@, tv));
    }
}

fn try_assign_exec(a: &mut Analyzer, span: Span, ispan: Span, name: &String, rhs: Type)
    ensures
        final(a)@ == spec_try_assign(old(a)@, span, ispan, name@, rhs@),
{
    if a.cx.scopes.len() == 0 {
        return;
    }
    let ghost rv = rhs@;
    let n = a.cx.scopes.len();
    let local = crate::scope::lookup_var(&a.cx.scopes[n - 1].vars, name);
    proof {
        assert(view_frames(a.cx.scopes@).last() == a.cx.scopes@.last()@);
    }
    let found: Option<(VarInfo, bool)> = match local {
        Option::Some(vi) => Option::Some((vi, false)),
        Option::None => match find_var(&a.cx.scopes, name) {
            Option::Some(vi) => Option::Some((vi, true)),
            Option::None => Option::None,
        },
    };
    match found {
        Option::Some((vi, from_parent)) => match vi.ty {
            Option::Some(declared) => {
                if crate::assign::is_assignable(&rhs, &declared) {
                    let w = widen(rhs);
                    add_var(
                        &mut a.cx.scopes,
                        dup_string(name),
                        VarInfo {
                            kind: vi.kind,
                            ty: Option::Some(w),
                            initialized: true,
                            copied: from_parent,
                        },
                    );
                    proof {
                        assert(a@ =~= spec_try_assign(old(a)@, span, ispan, name@, rv));
                    }
                } else {
                    let source = span_of(&rhs);
                    let target = span_of(&declared);
                    push_err(a, Error::NotAssignable { span, source, target });
                }
            },
            Option::None => {},
        },
        Option::None => {
            push_err(a, Error::UndefinedSymbol { span: ispan });
        },
    }
}

fn export_one_exec(a: &mut Analyzer, name: String, t: Type, span: Span)
    ensures
        final(a)@ == spec_export_one(old(a)@, name@, t@, span),
{
    let ghost tv = t@;
    match lookup_ty(&a.info.exports, &name) {
        Option::Some(..) => {
            push_err(a, Error::Redeclared { span });
        },
        Option::None => {
            let ghost base = a.info.exports@;
            a.info.exports.push((name, t));
            proof {
                assert(view_ty_entries(a.info.exports@) =~= view_ty_entries(base).push(
                    (a.info.exports@.last().0@, view_ty(a.info.exports@.last().1)),
                ));
                assert(a@ =~= spec_export_one(old(a)@, a.info.exports@.last().0@, tv, span));
            }
        },
    }
}

fn export_name_exec(a: &mut Analyzer, name: &String, span: Span)
    ensures
        final(a)@ == spec_export_name(old(a)@, name@, span),
{
    match find_type(&a.cx.scopes, name) {
        Option::Some(t) => export_one_exec(a, dup_string(name), t, span),
        Option::None => match find_var(&a.cx.scopes, name) {
            Option::Some(vi) => match vi.ty {
                Option::Some(t) => export_one_exec(a, dup_string(name), t, span),
                Option::None => export_one_exec(
                    a,
                    dup_string(name),
                    Type::Keyword { span, kind: KeywordKind::Any },
                    span,
                ),
            },
            Option::None => {
                push_err(a, Error::UndefinedSymbol { span });
            },
        },
    }
}

fn visit_decls_exec(
    a: &mut Analyzer,
    ds: &Vec<VarDeclarator>,
    kind: VarDeclKind,
    ambient: bool,
    i: usize,
)
    requires
        i <= ds@.len(),
    ensures
        final(a)@ == spec_visit_decls(old(a)@, ds@.skip(i as int), kind, ambient),
    decreases ds@.skip(i as int), 1nat,
{
    if i == ds.len() {
        proof {
            assert(ds@.skip(i as int) =~= Seq::<VarDeclarator>::empty());
        }
        return;
    }
    proof {
        assert(ds@.skip(i as int)[0] == ds@[i as int]);
        assert(ds@.skip(i as int).drop_first() =~= ds@.skip(i + 1));
    }
    let d = &ds[i];
    match &d.init {
        Option::Some(init) => match type_of(&mut a.cx, init) {
            Result::Err(e) => {
                push_err(a, e);
            },
            Result::Ok(vt) => match &d.ty {
                Option::Some(ann) => match fix_type(&a.cx, d.span, ann, true) {
                    Result::Err(e) => {
                        push_err(a, e);
                    },
                    Result::Ok(annt) => {
                        if crate::assign::is_assignable(&vt, &annt) {
                            declare_var_exec(
                                a,
                                kind,
                                dup_string(&d.name),
                                Option::Some(annt),
                                true,
                                matches!(kind, VarDeclKind::Var),
                                d.name_span,
                            );
                        } else {
                            let source = span_of(&vt);
                            let target = span_of(&annt);
                            push_err(
                                a,
                                Error::NotAssignable { span: d.span, source, target },
                            );
                            declare_var_exec(
                                a,
                                kind,
                                dup_string(&d.name),
                                Option::Some(annt),
                                true,
                                matches!(kind, VarDeclKind::Var),
                                d.name_span,
                            );
                        }
                    },
                },
                Option::None => {
                    let w = widen(vt);
                    declare_var_exec(
                        a,
                        kind,
                        dup_string(&d.name),
                        Option::Some(w),
                        true,
                        matches!(kind, VarDeclKind::Var),
                        d.name_span,
                    );
                },
            },
        },
        Option::None => match &d.ty {
            Option::Some(ann) => match fix_type(&a.cx, d.span, ann, true) {
                Result::Err(e) => {
                    push_err(a, e);
                },
                Result::Ok(annt) => {
                    declare_var_exec(
                        a,
                        kind,
                        dup_string(&d.name),
                        Option::Some(annt),
                        ambient,
                        matches!(kind, VarDeclKind::Var),
                        d.name_span,
                    );
                },
            },
            Option::None => {
                declare_var_exec(
                    a,
                    kind,
                    dup_string(&d.name),
                    Option::None,
                    ambient,
                    matches!(kind, VarDeclKind::Var),
                    d.name_span,
                );
            },
        },
    }
    visit_decls_exec(a, ds, kind, ambient, i + 1)
}

// ------------------------------------------------------------------
// The executable fold.
// ------------------------------------------------------------------

proof fn lemma_ctor_param_bindings_snoc(ps: Seq<crate::ast::CtorParam>, x: crate::ast::CtorParam)
    ensures
        ctor_param_bindings(ps.push(x)) == ctor_param_bindings(ps) + crate::expr::param_bindings(
            seq![x.param],
        ),
    decreases ps.len(),
{
    if ps.len() == 0 {
        assert(ps.push(x)[0] == x);
        assert(ps.push(x).drop_first() =~= Seq::<crate::ast::CtorParam>::empty());
        assert(ctor_param_bindings(Seq::<crate::ast::CtorParam>::empty()) == Seq::<(
            Seq<char>,
            VarInfoV,
        )>::empty());
        assert(ctor_param_bindings(ps.push(x)) =~= ctor_param_bindings(ps)
            + crate::expr::param_bindings(seq![x.param]));
    } else {
        lemma_ctor_param_bindings_snoc(ps.drop_first(), x);
        assert(ps.push(x)[0] == ps[0]);
        assert(ps.push(x).drop_first() =~= ps.drop_first().push(x));
        assert(ctor_param_bindings(ps.push(x)) =~= ctor_param_bindings(ps)
            + crate::expr::param_bindings(seq![x.param]));
    }
}

/// Pushes the scope frame a constructor body is visited in.
fn push_ctor_frame(cx: &mut Cx, params: &Vec<crate::ast::CtorParam>)
    ensures
        final(cx)@.scopes == old(cx)@.scopes.push(ctor_frame(params@)),
        final(cx)@.imports == old(cx)@.imports,
        final(cx)@.libs == old(cx)@.libs,
{
    let ghost scopes0 = view_frames(cx.scopes@);
    push_scope(&mut cx.scopes, ScopeKind::Fn);
    let n = params.len();
    let mut i: usize = 0;
    proof {
        assert(ctor_param_bindings(params@.take(0)) =~= Seq::<(Seq<char>, VarInfoV)>::empty());
    }
    while i < n
        invariant
            n == params@.len(),
            i <= n,
            view_frames(cx.scopes@).len() == scopes0.len() + 1,
            view_frames(cx.scopes@).take(scopes0.len() as int) == scopes0,
            view_frames(cx.scopes@).last() == (crate::scope::FrameV {
                kind: ScopeKind::Fn,
                vars: ctor_param_bindings(params@.take(i as int)),
                types: Seq::empty(),
                facts: Seq::empty(),
                this_ty: Option::None,
            }),
            cx@.imports == old(cx)@.imports,
            cx@.libs == old(cx)@.libs,
        decreases n - i,
    {
        let p = &params[i].param;
        let ghost x = params@[i as int];
        let ghost b = (
            x.param.name@,
            VarInfoV {
                kind: VarDeclKind::Let,
                ty: match x.param.ty {
                    Option::Some(t) => Option::Some(view_ty(t)),
                    Option::None => Option::None,
                },
                initialized: true,
                copied: false,
            },
        );
        proof {
            assert(cx.scopes@.len() == scopes0.len() + 1);
        }
        let ty = match &p.ty {
            Option::Some(t) => Option::Some(dup_ty(t)),
            Option::None => Option::None,
        };
        add_var(
            &mut cx.scopes,
            dup_string(&p.name),
            VarInfo { kind: VarDeclKind::Let, ty, initialized: true, copied: false },
        );
        proof {
            lemma_ctor_param_bindings_snoc(params@.take(i as int), x);
            assert(params@.take(i as int).push(x) =~= params@.take(i + 1));
            assert(seq![x.param][0] == x.param);
            assert(seq![x.param].drop_first() =~= Seq::<crate::ast::Param>::empty());
            assert(crate::expr::param_bindings(Seq::<crate::ast::Param>::empty()) == Seq::<(
                Seq<char>,
                VarInfoV,
            )>::empty());
            assert(crate::expr::param_bindings(seq![x.param]) =~= seq![b]);
            assert(view_frames(cx.scopes@).last().vars =~= ctor_param_bindings(
                params@.take(i + 1),
            ));
            assert(view_frames(cx.scopes@).take(scopes0.len() as int) =~= scopes0);
        }
        i += 1;
    }
    proof {
        assert(params@.take(n as int) =~= params@);
        assert(view_frames(cx.scopes@) =~= scopes0.push(ctor_frame(params@)));
    }
}

/// Visits one function (§4.5) and yields its type.
fn visit_fn_exec(
    a: &mut Analyzer,
    span: Span,
    name: Option<&String>,
    func: &crate::ast::FnData,
) -> (r: Type)
    ensures
        final(a)@ == spec_visit_fn(
            old(a)@,
            span,
            match name {
                Option::Some(n) => Option::Some(n@),
                Option::None => Option::None,
            },
            *func,
        ).0,
        r@ == spec_visit_fn(
            old(a)@,
            span,
            match name {
                Option::Some(n) => Option::Some(n@),
                Option::None => Option::None,
            },
            *func,
        ).1,
    decreases *func, 6nat, 0nat,
{
    crate::expr::push_fn_frame(&mut a.cx, name, span, func);
    let mut outer: Vec<Type> = Vec::new();
    core::mem::swap(&mut outer, &mut a.rets);
    proof {
        assert(crate::ty::view_tys(a.rets@) =~= Seq::<TypeV>::empty());
    }
    match &func.body {
        Option::Some(stmts) => {
            proof {
                assert(stmts@.skip(0) =~= stmts@);
            }
            visit_stmts_exec(a, stmts, 0);
        },
        Option::None => {},
    }
    let declared: Option<Type> = match &func.return_type {
        Option::Some(t) => match fix_type(&a.cx, span, t, false) {
            Result::Ok(d) => Option::Some(d),
            Result::Err(e) => {
                push_err(a, e);
                Option::None
            },
        },
        Option::None => Option::None,
    };
    let ghost rv = crate::ty::view_tys(a.rets@);
    proof {
        crate::ty::lemma_view_tys(a.rets@);
    }
    let ret: Type = match declared {
        Option::Some(d) => {
            let n = a.rets.len();
            let mut i: usize = 0;
            let mut all_ok: bool = true;
            let ghost aprev = a@;
            while i < n
                invariant
                    n == a.rets@.len(),
                    i <= n,
                    a@ == aprev,
                    rv == crate::ty::view_tys(a.rets@),
                    all_ok == (forall|j: int|
                        0 <= j < i ==> crate::assign::assignable(#[trigger] rv[j], d@)),
                decreases n - i,
            {
                proof {
                    crate::ty::lemma_view_tys(a.rets@);
                }
                if !crate::assign::is_assignable(&a.rets[i], &d) {
                    proof {
                        assert(!crate::assign::assignable(rv[i as int], d@));
                    }
                    all_ok = false;
                }
                i += 1;
            }
            proof {
                crate::ty::lemma_view_tys(a.rets@);
            }
            if !all_ok {
                proof {
                    assert(!crate::expr::rets_all_assignable(rv, d@));
                }
                let target = span_of(&d);
                push_err(a, Error::NotAssignable { span, source: span, target });
            } else {
                proof {
                    assert(crate::expr::rets_all_assignable(rv, d@));
                }
            }
            d
        },
        Option::None => {
            let body_missing = match &func.body {
                Option::Some(..) => false,
                Option::None => true,
            };
            if body_missing {
                Type::Keyword { span, kind: KeywordKind::Any }
            } else if a.rets.len() == 0 {
                Type::Keyword { span, kind: KeywordKind::Undefined }
            } else if a.rets.len() == 1 {
                let mut collected: Vec<Type> = Vec::new();
                core::mem::swap(&mut collected, &mut a.rets);
                match collected.pop() {
                    Option::Some(t) => {
                        proof {
                            assert(t@ == rv[0]);
                        }
                        t
                    },
                    Option::None => Type::Keyword { span, kind: KeywordKind::Undefined },
                }
            } else {
                let mut collected: Vec<Type> = Vec::new();
                core::mem::swap(&mut collected, &mut a.rets);
                proof {
                    assert(crate::ty::view_tys(collected@) == rv);
                }
                union_of_owned(span, collected)
            }
        },
    };
    proof {
        if (match &func.return_type {
            Option::Some(..) => false,
            Option::None => true,
        } && func.body is Some) {
            assert(ret@ == crate::expr::collapse_returns(span, rv));
        }
    }
    if a.cx.scopes.len() > 0 {
        pop_scope(&mut a.cx.scopes);
    }
    a.rets = outer;
    let out = Type::Function {
        span,
        params: crate::expr::ast_params(&func.params),
        type_params: crate::ty::dup_type_params(&func.type_params),
        ret: Box::new(ret),
    };
    proof {
        assert(a@ =~~= spec_visit_fn(
            old(a)@,
            span,
            match name {
                Option::Some(n) => Option::Some(n@),
                Option::None => Option::None,
            },
            *func,
        ).0);
    }
    out
}

/// The normalized union of an owned list.
fn union_of_owned(span: Span, ts: Vec<Type>) -> (r: Type)
    ensures
        r@ == crate::ty::union_of_v(span, crate::ty::view_tys(ts@)),
{
    crate::ty::union_of(span, ts)
}

/// Validates one computed property key (§4.5).
fn computed_key_exec(a: &mut Analyzer, kspan: Span, e: &Expr)
    ensures
        final(a)@ == spec_computed_key(old(a)@, kspan, *e),
{
    let mut errs: Vec<Error> = Vec::new();
    let to: Option<Type> = match type_of(&mut a.cx, e) {
        Result::Err(err) => {
            errs.push(err);
            Option::None
        },
        Result::Ok(t) => Option::Some(t),
    };
    let symbol_access: bool = match e {
        Expr::Member { obj, .. } => match &**obj {
            Expr::Ident { name, .. } => crate::expr::name_is(name, "Symbol"),
            _ => false,
        },
        _ => false,
    };
    let ok: bool = match &to {
        Option::Some(t) => {
            let is_lit_or_any = match t {
                Type::Lit { .. } => true,
                Type::Keyword { kind: KeywordKind::Any, .. } => true,
                _ => false,
            };
            proof {
                broadcast use crate::ty::lemma_view_keeps_tag;

                match t {
                    Type::Lit { .. } => {},
                    Type::Keyword { .. } => {},
                    _ => {
                        let tag = crate::ty::exec_tag_of(*t);
                        assert(tag != 1 && tag != 0);
                    },
                }
            }
            is_lit_or_any || symbol_access
        },
        Option::None => true,
    };
    if !ok {
        errs.push(Error::ComputedKeyNotLiteral { span: kspan });
    }
    if errs.len() > 0 {
        proof {
            crate::errors::lemma_view_errs(errs@);
            if errs@.len() == 2 {
                assert(view_errs(errs@) =~= seq![errs@[0]@, errs@[1]@]);
            } else {
                assert(view_errs(errs@) =~= seq![errs@[0]@]);
            }
        }
        push_err(a, Error::Grouped { span: kspan, errors: errs });
    } else {
        proof {
            assert(view_errs(errs@) =~= Seq::<ErrorV>::empty());
        }
    }
}

/// The key check one member owes.
fn member_key_check_exec(a: &mut Analyzer, key: &crate::ast::MemberKey)
    ensures
        final(a)@ == spec_member_key_check(old(a)@, *key),
{
    match key {
        crate::ast::MemberKey::Computed { span, expr } => {
            computed_key_exec(a, *span, expr);
        },
        crate::ast::MemberKey::Plain(..) => {},
    }
}

/// Visits one class member's body (§4.5).
fn visit_class_member_exec(a: &mut Analyzer, m: &crate::ast::ClassMember)
    ensures
        final(a)@ == spec_visit_class_member(old(a)@, *m),
    decreases *m, 8nat, 0nat,
{
    match m {
        crate::ast::ClassMember::Method { span, key, func, .. } => {
            member_key_check_exec(a, key);
            let _t = visit_fn_exec(a, *span, Option::None, func);
        },
        crate::ast::ClassMember::Constructor { params, body, .. } => match body {
            Option::Some(stmts) => {
                push_ctor_frame(&mut a.cx, params);
                let mut outer: Vec<Type> = Vec::new();
                core::mem::swap(&mut outer, &mut a.rets);
                proof {
                    assert(crate::ty::view_tys(a.rets@) =~= Seq::<TypeV>::empty());
                }
                proof {
                    assert(stmts@.skip(0) =~= stmts@);
                }
                visit_stmts_exec(a, stmts, 0);
                if a.cx.scopes.len() > 0 {
                    pop_scope(&mut a.cx.scopes);
                }
                a.rets = outer;
                proof {
                    assert(a@ =~~= spec_visit_class_member(old(a)@, *m));
                }
            },
            Option::None => {},
        },
        crate::ast::ClassMember::Prop { key, ty, value, .. } => {
            member_key_check_exec(a, key);
            match ty {
                Option::Some(ann) => {
                    let aspan = span_of(ann);
                    match fix_type(&a.cx, aspan, ann, false) {
                        Result::Err(e) => {
                            push_err(a, e);
                        },
                        Result::Ok(..) => {},
                    }
                },
                Option::None => {},
            }
            match value {
                Option::Some(v) => match type_of(&mut a.cx, v) {
                    Result::Err(e) => {
                        push_err(a, e);
                    },
                    Result::Ok(..) => {},
                },
                Option::None => {},
            }
        },
        crate::ast::ClassMember::IndexSig { .. } => {},
    }
}

/// Visits a class body's members, from index `i` on.
fn visit_class_members_exec(a: &mut Analyzer, ms: &Vec<crate::ast::ClassMember>, i: usize)
    requires
        i <= ms@.len(),
    ensures
        final(a)@ == spec_visit_class_members(old(a)@, ms@.skip(i as int)),
    decreases ms@.skip(i as int), 9nat, 0nat,
{
    if i == ms.len() {
        proof {
            assert(ms@.skip(i as int) =~= Seq::<crate::ast::ClassMember>::empty());
        }
        return;
    }
    proof {
        assert(ms@.skip(i as int)[0] == ms@[i as int]);
        assert(ms@.skip(i as int).drop_first() =~= ms@.skip(i + 1));
    }
    visit_class_member_exec(a, &ms[i]);
    visit_class_members_exec(a, ms, i + 1)
}

/// One statement of the fold (§4.5, §4.6).
#[verifier::rlimit(100)]
pub fn visit_stmt(a: &mut Analyzer, s: &Stmt)
    ensures
        final(a)@ == spec_visit_stmt(old(a)@, *s),
    decreases *s, 2nat, 0nat,
{
    match s {
        Stmt::ExprStmt { span, expr } => match expr {
            Expr::Assign { span: aspan, target, right } => match type_of(&mut a.cx, right) {
                Result::Err(e) => {
                    push_err(a, e);
                },
                Result::Ok(rhs) => match target {
                    AssignTarget::Ident { span: ispan, name } => {
                        try_assign_exec(a, *aspan, *ispan, name, rhs);
                        proof {
                            assert(a@ =~~= spec_visit_stmt(old(a)@, *s));
                        }
                    },
                    AssignTarget::Member { .. } => {
                        proof {
                            assert(a@ =~~= spec_visit_stmt(old(a)@, *s));
                        }
                    },
                    AssignTarget::Other { span: ospan } => {
                        push_err(a, Error::Unsupported { span: *ospan });
                        proof {
                            assert(a@ =~~= spec_visit_stmt(old(a)@, *s));
                        }
                    },
                },
            },
            other => match type_of(&mut a.cx, other) {
                Result::Err(e) => {
                    proof {
                        assert(!(*other is Assign));
                    }
                    push_err(a, e);
                    proof {
                        assert(a@ =~~= spec_visit_stmt(old(a)@, *s));
                    }
                },
                Result::Ok(..) => {
                    proof {
                        assert(!(*other is Assign));
                        assert(a@ =~~= spec_visit_stmt(old(a)@, *s));
                    }
                },
            },
        },
        Stmt::Block { stmts, .. } => {
            push_scope(&mut a.cx.scopes, ScopeKind::Block);
            proof {
                assert(stmts@.skip(0) =~= stmts@);
                assert(a@ =~~= with_scopes(old(a)@, old(a)@.cx.scopes.push(block_frame())));
            }
            visit_stmts_exec(a, stmts, 0);
            if a.cx.scopes.len() > 0 {
                pop_scope(&mut a.cx.scopes);
            }
            proof {
                assert(a@ =~~= spec_visit_stmt(old(a)@, *s));
            }
        },
        Stmt::If { test, cons, alt, .. } => {
            match type_of(&mut a.cx, test) {
                Result::Err(e) => {
                    push_err(a, e);
                },
                Result::Ok(..) => {},
            }
            push_scope(&mut a.cx.scopes, ScopeKind::Block);
            visit_stmt(a, cons);
            if a.cx.scopes.len() > 0 {
                pop_scope(&mut a.cx.scopes);
            }
            match alt {
                Option::Some(ealt) => {
                    push_scope(&mut a.cx.scopes, ScopeKind::Block);
                    visit_stmt(a, ealt);
                    if a.cx.scopes.len() > 0 {
                        pop_scope(&mut a.cx.scopes);
                    }
                    proof {
                        assert(a@ =~~= spec_visit_stmt(old(a)@, *s));
                    }
                },
                Option::None => {
                    proof {
                        assert(a@ =~~= spec_visit_stmt(old(a)@, *s));
                    }
                },
            }
        },
        Stmt::Return { span: rspan, arg } => match arg {
            Option::Some(e) => match type_of(&mut a.cx, e) {
                Result::Err(err) => {
                    push_err(a, err);
                },
                Result::Ok(t) => {
                    let ghost base = a.rets@;
                    let ghost tv = t@;
                    a.rets.push(t);
                    proof {
                        crate::ty::lemma_view_tys_snoc(base, a.rets@.last());
                        assert(a.rets@ =~= base.push(a.rets@.last()));
                        assert(crate::ty::view_tys(a.rets@) =~= crate::ty::view_tys(base).push(
                            tv,
                        ));
                        assert(a@ =~~= spec_visit_stmt(old(a)@, *s));
                    }
                },
            },
            Option::None => {
                let ghost base = a.rets@;
                let t = Type::Keyword { span: *rspan, kind: KeywordKind::Undefined };
                let ghost tv = t@;
                a.rets.push(t);
                proof {
                    crate::ty::lemma_view_tys_snoc(base, a.rets@.last());
                    assert(a.rets@ =~= base.push(a.rets@.last()));
                    assert(crate::ty::view_tys(a.rets@) =~= crate::ty::view_tys(base).push(tv));
                    assert(a@ =~~= spec_visit_stmt(old(a)@, *s));
                }
            },
        },
        Stmt::VarDeclStmt { decl } => {
            proof {
                assert(decl.decls@.skip(0) =~= decl.decls@);
            }
            visit_decls_exec(a, &decl.decls, decl.kind, decl.declare, 0);
            proof {
                assert(a@ =~~= spec_visit_stmt(old(a)@, *s));
            }
        },
        Stmt::FnDecl { span, name, name_span, func, .. } => {
            let perrs = validate_optional_order(&func.params);
            push_errs(a, perrs);
            let t = visit_fn_exec(a, *span, Option::Some(name), func);
            declare_var_exec(
                a,
                VarDeclKind::Var,
                dup_string(name),
                Option::Some(t),
                true,
                true,
                *name_span,
            );
            proof {
                assert(a@ =~~= spec_visit_stmt(old(a)@, *s));
            }
        },
        Stmt::ClassDecl { span, name, name_span, declare, class } => {
            let e1 = validate_class_members(&class.body, *declare);
            let e2 = validate_ctor_props(&class.body);
            let e3 = validate_getters(&class.body);
            let e4 = class_param_order_exec(&class.body, 0);
            let e12 = crate::class::concat_errors(e1, e2);
            let e123 = crate::class::concat_errors(e12, e3);
            let errs = crate::class::concat_errors(e123, e4);
            push_errs(a, errs);
            let ty = class_type(*span, Option::Some(dup_string(name)), &class.body);
            let ty2 = dup_ty(&ty);
            let ghost tyv = ty@;
            register_type_exec(a, dup_string(name), ty);
            declare_var_exec(
                a,
                VarDeclKind::Var,
                dup_string(name),
                Option::Some(ty2),
                true,
                false,
                *name_span,
            );
            let ghost pre_scopes = view_frames(a.cx.scopes@);
            push_scope(&mut a.cx.scopes, ScopeKind::Class);
            proof {
                assert(view_frames(a.cx.scopes@).len() >= 1);
                assert(a.cx.scopes@.len() >= 1);
            }
            let this_ty = class_type(*span, Option::Some(dup_string(name)), &class.body);
            crate::scope::set_this(&mut a.cx.scopes, Option::Some(this_ty));
            proof {
                assert(view_frames(a.cx.scopes@).last() =~= class_frame(tyv));
                assert(view_frames(a.cx.scopes@) =~= pre_scopes.push(class_frame(tyv)));
                assert(class.body@.skip(0) =~= class.body@);
            }
            visit_class_members_exec(a, &class.body, 0);
            if a.cx.scopes.len() > 0 {
                pop_scope(&mut a.cx.scopes);
            }
            proof {
                assert(a@ =~~= spec_visit_stmt(old(a)@, *s));
            }
        },
        Stmt::EnumDecl { span, name, members } => {
            let t = Type::Enum {
                span: *span,
                name: dup_string(name),
                members: crate::ty::dup_enum_members(members),
            };
            register_type_exec(a, dup_string(name), t);
            proof {
                assert(a@ =~~= spec_visit_stmt(old(a)@, *s));
            }
        },
        Stmt::InterfaceDecl { span, name, type_params, body, parents } => {
            let t = Type::Interface {
                span: *span,
                name: dup_string(name),
                type_params: crate::ty::dup_type_params(type_params),
                body: crate::ty::dup_elems(body),
                parents: crate::ty::dup_strings(parents),
            };
            register_type_exec(a, dup_string(name), t);
            proof {
                assert(a@ =~~= spec_visit_stmt(old(a)@, *s));
            }
        },
        Stmt::TypeAliasDecl { span, name, type_params, ty } => match fix_type(
            &a.cx,
            *span,
            ty,
            false,
        ) {
            Result::Err(e) => {
                push_err(a, e);
                let inner = Type::Keyword { span: *span, kind: KeywordKind::Any };
                proof {
                    assert(inner@ == kw(*span, KeywordKind::Any));
                }
                let t = Type::Alias {
                    span: *span,
                    ty: Box::new(inner),
                    type_params: crate::ty::dup_type_params(type_params),
                };
                register_type_exec(a, dup_string(name), t);
                proof {
                    assert(a@ =~~= spec_visit_stmt(old(a)@, *s));
                }
            },
            Result::Ok(t0) => {
                let t = Type::Alias {
                    span: *span,
                    ty: Box::new(t0),
                    type_params: crate::ty::dup_type_params(type_params),
                };
                register_type_exec(a, dup_string(name), t);
                proof {
                    assert(a@ =~~= spec_visit_stmt(old(a)@, *s));
                }
            },
        },
        Stmt::Empty { .. } => {
            proof {
                assert(a@ =~~= spec_visit_stmt(old(a)@, *s));
            }
        },
    }
}

/// The class-body parameter-order errors, from index `i` on.
fn class_param_order_exec(ms: &Vec<crate::ast::ClassMember>, i: usize) -> (r: Vec<Error>)
    requires
        i <= ms@.len(),
    ensures
        view_errs(r@) == spec_class_param_order_errors(ms@.skip(i as int)),
    decreases ms@.len() - i,
{
    if i == ms.len() {
        let out: Vec<Error> = Vec::new();
        proof {
            assert(ms@.skip(i as int) =~= Seq::<crate::ast::ClassMember>::empty());
            assert(view_errs(out@) =~= Seq::<ErrorV>::empty());
        }
        return out;
    }
    proof {
        assert(ms@.skip(i as int)[0] == ms@[i as int]);
        assert(ms@.skip(i as int).drop_first() =~= ms@.skip(i + 1));
    }
    let rest = class_param_order_exec(ms, i + 1);
    match &ms[i] {
        crate::ast::ClassMember::Method { func, .. } => {
            let head = validate_optional_order(&func.params);
            crate::class::concat_errors(head, rest)
        },
        crate::ast::ClassMember::Constructor { params, .. } => {
            proof {
                assert(params@.skip(0) =~= params@);
            }
            let head = ctor_opt_order_from(params, false, 0);
            crate::class::concat_errors(head, rest)
        },
        _ => {
            proof {
                match ms@[i as int] {
                    crate::ast::ClassMember::Method { .. } => {
                        assert(false);
                    },
                    crate::ast::ClassMember::Constructor { .. } => {
                        assert(false);
                    },
                    _ => {},
                }
            }
            rest
        },
    }
}

/// The constructor parameter-order errors, from index `i` on.
fn ctor_opt_order_from(ps: &Vec<crate::ast::CtorParam>, has_opt: bool, i: usize) -> (r: Vec<
    Error,
>)
    requires
        i <= ps@.len(),
    ensures
        view_errs(r@) == ctor_opt_order_scan(ps@.skip(i as int), has_opt),
    decreases ps@.len() - i,
{
    if i == ps.len() {
        let out: Vec<Error> = Vec::new();
        proof {
            assert(ps@.skip(i as int) =~= Seq::<crate::ast::CtorParam>::empty());
            assert(view_errs(out@) =~= Seq::<ErrorV>::empty());
        }
        return out;
    }
    proof {
        assert(ps@.skip(i as int)[0] == ps@[i as int]);
        assert(ps@.skip(i as int).drop_first() =~= ps@.skip(i + 1));
    }
    let p_opt = ps[i].param.optional;
    let rest = ctor_opt_order_from(ps, has_opt || p_opt, i + 1);
    if !p_opt && has_opt {
        let h = Error::OptionalAfterRequired { span: ps[i].param.span };
        let ghost hv = h@;
        let ghost restseq = rest@;
        let mut out = rest;
        out.insert(0, h);
        proof {
            crate::errors::lemma_view_errs(out@);
            crate::errors::lemma_view_errs(restseq);
            assert(out@[0] == h);
            assert(out@.drop_first() =~= restseq);
            assert(view_errs(out@) =~= seq![hv] + view_errs(restseq));
        }
        out
    } else {
        rest
    }
}

/// The statements of a list, from index `i` on.
pub fn visit_stmts_exec(a: &mut Analyzer, ss: &Vec<Stmt>, i: usize)
    requires
        i <= ss@.len(),
    ensures
        final(a)@ == spec_visit_stmts(old(a)@, ss@.skip(i as int)),
    decreases ss@.skip(i as int), 3nat, 0nat,
{
    if i == ss.len() {
        proof {
            assert(ss@.skip(i as int) =~= Seq::<Stmt>::empty());
        }
        return;
    }
    proof {
        assert(ss@.skip(i as int)[0] == ss@[i as int]);
        assert(ss@.skip(i as int).drop_first() =~= ss@.skip(i + 1));
    }
    visit_stmt(a, &ss[i]);
    visit_stmts_exec(a, ss, i + 1)
}

// ------------------------------------------------------------------
// The executable driver.
// ------------------------------------------------------------------

/// Binds the entries one resolved import contributes, from `i` on.
fn add_import_bindings_exec(a: &mut Analyzer, entries: &Vec<(String, Type)>, span: Span, i: usize)
    requires
        i <= entries@.len(),
    ensures
        final(a)@ == spec_add_import_bindings(old(a)@, entries@.skip(i as int), span),
    decreases entries@.len() - i,
{
    if i == entries.len() {
        proof {
            assert(entries@.skip(i as int) =~= Seq::<(String, Type)>::empty());
        }
        return;
    }
    proof {
        assert(entries@.skip(i as int)[0] == entries@[i as int]);
        assert(entries@.skip(i as int).drop_first() =~= entries@.skip(i + 1));
    }
    match lookup_ty(&a.cx.imports, &entries[i].0) {
        Option::Some(..) => {
            push_err(a, Error::Redeclared { span });
        },
        Option::None => {},
    }
    let name = dup_string(&entries[i].0);
    let t = dup_ty(&entries[i].1);
    let ghost pre = a@;
    a.cx.imports.push((name, t));
    proof {
        assert(view_ty_entries(a.cx.imports@) =~= pre.cx.imports.push(
            (entries@[i as int].0@, view_ty(entries@[i as int].1)),
        ));
        assert(a@ =~~= (AnalyzerV {
            cx: CxV {
                imports: pre.cx.imports.push(
                    (entries@[i as int].0@, view_ty(entries@[i as int].1)),
                ),
                ..pre.cx
            },
            ..pre
        }));
    }
    add_import_bindings_exec(a, entries, span, i + 1)
}

/// Merges one import result (§4.8, §5).
fn merge_import_exec(a: &mut Analyzer, import: &ImportInfo, res: Result<Vec<(String, Type)>, Error>)
    ensures
        final(a)@ == spec_merge_import(old(a)@, *import, res),
{
    match res {
        Result::Ok(map) => {
            proof {
                assert(map@.skip(0) =~= map@);
            }
            add_import_bindings_exec(a, &map, import.span, 0);
        },
        Result::Err(e) => {
            push_err(a, e);
            let n = import.items.len();
            let mut i: usize = 0;
            let ghost base = a@;
            proof {
                assert(locals_as_any(import.items@.take(0), import.span) =~= Seq::<(
                    Seq<char>,
                    TypeV,
                )>::empty());
                assert(a.cx@.imports =~= base.cx.imports + locals_as_any(
                    import.items@.take(0),
                    import.span,
                ));
            }
            while i < n
                invariant
                    n == import.items@.len(),
                    i <= n,
                    a@ == (AnalyzerV {
                        cx: CxV {
                            imports: base.cx.imports + locals_as_any(
                                import.items@.take(i as int),
                                import.span,
                            ),
                            ..base.cx
                        },
                        ..base
                    }),
                decreases n - i,
            {
                let ghost pre = a@;
                let ghost prevec = a.cx.imports@;
                let local = dup_string(&import.items[i].local.0);
                let anyk = Type::Keyword { span: import.span, kind: KeywordKind::Any };
                proof {
                    assert(anyk@ == kw(import.span, KeywordKind::Any));
                }
                a.cx.imports.push((local, anyk));
                proof {
                    assert(a.cx.imports@ =~= prevec.push(a.cx.imports@.last()));
                    assert(view_ty_entries(a.cx.imports@) =~= view_ty_entries(prevec).push(
                        (import.items@[i as int].local.0@, kw(import.span, KeywordKind::Any)),
                    ));
                    assert(import.items@.take(i + 1) =~= import.items@.take(i as int).push(
                        import.items@[i as int],
                    ));
                    assert(locals_as_any(import.items@.take(i + 1), import.span)
                        =~= locals_as_any(import.items@.take(i as int), import.span).push(
                        (import.items@[i as int].local.0@, kw(import.span, KeywordKind::Any)),
                    ));
                    assert(view_ty_entries(a.cx.imports@) =~= base.cx.imports + locals_as_any(
                        import.items@.take(i + 1),
                        import.span,
                    ));
                    assert(a@ =~~= (AnalyzerV {
                        cx: CxV {
                            imports: base.cx.imports + locals_as_any(
                                import.items@.take(i + 1),
                                import.span,
                            ),
                            ..base.cx
                        },
                        ..base
                    }));
                }
                i += 1;
            }
            proof {
                assert(import.items@.take(n as int) =~= import.items@);
                assert(a@ =~~= spec_merge_import(old(a)@, *import, res));
            }
        },
    }
}

/// One module item of the fold (§4.8).
fn visit_item_exec(a: &mut Analyzer, item: &ModuleItem)
    ensures
        final(a)@ == spec_visit_item(old(a)@, *item),
{
    match item {
        ModuleItem::Stmt(s) => {
            visit_stmt(a, s);
        },
        ModuleItem::Import { .. } => {},
        ModuleItem::ExportDecl { decl, .. } => {
            visit_stmt(a, decl);
            export_decl_names_exec(a, decl);
        },
        ModuleItem::ExportDefaultExpr { span, expr } => match type_of(&mut a.cx, expr) {
            Result::Ok(t) => {
                export_one_exec(a, String::from_str("default"), t, *span);
            },
            Result::Err(e) => {
                let is_undef = match &e {
                    Error::UndefinedSymbol { .. } => true,
                    _ => false,
                };
                proof {
                    broadcast use crate::errors::lemma_err_view_tag;

                    match &e {
                        Error::UndefinedSymbol { .. } => {},
                        _ => {
                            assert(crate::errors::err_exec_tag(e) != 0);
                        },
                    }
                }
                if is_undef {
                    match expr {
                        Expr::Ident { name, .. } => {
                            let ghost pre = a@;
                            a.pending_exports.push(
                                (String::from_str("default"), dup_string(name), *span),
                            );
                            proof {
                                assert(view_pending(a.pending_exports@) =~= pre.pending.push(
                                    ("default"@, name@, *span),
                                ));
                                assert(a@ =~~= (AnalyzerV {
                                    pending: pre.pending.push(("default"@, name@, *span)),
                                    ..pre
                                }));
                            }
                        },
                        _ => {
                            push_err(a, Error::UndefinedSymbol { span: *span });
                        },
                    }
                } else {
                    push_err(a, e);
                }
            },
        },
    }
}

/// Exports the names a declaration binds (§4.8).
fn export_decl_names_exec(a: &mut Analyzer, s: &Stmt)
    ensures
        final(a)@ == spec_export_decl_names(old(a)@, *s),
{
    match s {
        Stmt::FnDecl { name, name_span, .. } => {
            export_name_exec(a, name, *name_span);
        },
        Stmt::ClassDecl { name, name_span, .. } => {
            export_name_exec(a, name, *name_span);
        },
        Stmt::EnumDecl { span, name, .. } => {
            export_name_exec(a, name, *span);
        },
        Stmt::InterfaceDecl { span, name, .. } => {
            export_name_exec(a, name, *span);
        },
        Stmt::TypeAliasDecl { span, name, .. } => {
            export_name_exec(a, name, *span);
        },
        Stmt::VarDeclStmt { decl } => {
            proof {
                assert(decl.decls@.skip(0) =~= decl.decls@);
            }
            export_decl_vars_exec(a, &decl.decls, 0);
        },
        _ => {
            proof {
                match s {
                    Stmt::ExprStmt { .. } => {},
                    Stmt::Block { .. } => {},
                    Stmt::Return { .. } => {},
                    Stmt::If { .. } => {},
                    Stmt::Empty { .. } => {},
                    _ => {},
                }
            }
        },
    }
}

/// Exports each declarator's name, from `i` on.
fn export_decl_vars_exec(a: &mut Analyzer, ds: &Vec<VarDeclarator>, i: usize)
    requires
        i <= ds@.len(),
    ensures
        final(a)@ == spec_export_decl_vars(old(a)@, ds@.skip(i as int)),
    decreases ds@.len() - i,
{
    if i == ds.len() {
        proof {
            assert(ds@.skip(i as int) =~= Seq::<VarDeclarator>::empty());
        }
        return;
    }
    proof {
        assert(ds@.skip(i as int)[0] == ds@[i as int]);
        assert(ds@.skip(i as int).drop_first() =~= ds@.skip(i + 1));
    }
    export_name_exec(a, &ds[i].name, ds[i].name_span);
    export_decl_vars_exec(a, ds, i + 1)
}

/// The module items, from `i` on.
fn visit_items_exec(a: &mut Analyzer, items: &Vec<ModuleItem>, i: usize)
    requires
        i <= items@.len(),
    ensures
        final(a)@ == spec_visit_items(old(a)@, items@.skip(i as int)),
    decreases items@.len() - i,
{
    if i == items.len() {
        proof {
            assert(items@.skip(i as int) =~= Seq::<ModuleItem>::empty());
        }
        return;
    }
    proof {
        assert(items@.skip(i as int)[0] == items@[i as int]);
        assert(items@.skip(i as int).drop_first() =~= items@.skip(i + 1));
    }
    visit_item_exec(a, &items[i]);
    visit_items_exec(a, items, i + 1)
}

/// Resolves the deferred exports (§4.8), from `i` on.
fn handle_pending_exec(a: &mut Analyzer, i: usize)
    requires
        i <= a.pending_exports@.len(),
    ensures
        final(a)@ == spec_handle_pending(old(a)@, old(a)@.pending.skip(i as int)),
    decreases a.pending_exports@.len() - i,
{
    if i == a.pending_exports.len() {
        proof {
            assert(old(a)@.pending.skip(i as int) =~= Seq::<(Seq<char>, Seq<char>, Span)>::empty());
        }
        return;
    }
    proof {
        assert(old(a)@.pending.skip(i as int)[0] == old(a)@.pending[i as int]);
        assert(old(a)@.pending[i as int] == (
            a.pending_exports@[i as int].0@,
            a.pending_exports@[i as int].1@,
            a.pending_exports@[i as int].2,
        ));
        assert(old(a)@.pending.skip(i as int).drop_first() =~= old(a)@.pending.skip(i + 1));
    }
    let ename = dup_string(&a.pending_exports[i].0);
    let local = dup_string(&a.pending_exports[i].1);
    let span = a.pending_exports[i].2;
    match find_type(&a.cx.scopes, &local) {
        Option::Some(t) => {
            export_one_exec(a, ename, t, span);
        },
        Option::None => match find_var(&a.cx.scopes, &local) {
            Option::Some(vi) => match vi.ty {
                Option::Some(t) => {
                    export_one_exec(a, ename, t, span);
                },
                Option::None => {},
            },
            Option::None => {},
        },
    }
    proof {
        assert(a@.pending == old(a)@.pending);
        assert(a.pending_exports@.len() == old(a)@.pending.len());
    }
    handle_pending_exec(a, i + 1)
}

/// Deep duplication of a name-to-type table.
fn dup_ty_entries(v: &Vec<(String, Type)>) -> (r: Vec<(String, Type)>)
    ensures
        view_ty_entries(r@) == view_ty_entries(v@),
{
    let mut out: Vec<(String, Type)> = Vec::new();
    let n = v.len();
    let mut i: usize = 0;
    while i < n
        invariant
            n == v@.len(),
            out@.len() == i,
            i <= n,
            forall|j: int|
                0 <= j < i ==> out@[j].0@ == v@[j].0@ && view_ty(out@[j].1) == view_ty(v@[j].1),
        decreases n - i,
    {
        let name = dup_string(&v[i].0);
        let t = dup_ty(&v[i].1);
        out.push((name, t));
        i += 1;
    }
    proof {
        assert forall|j: int| 0 <= j < v@.len() implies view_ty_entries(out@)[j]
            == view_ty_entries(v@)[j] by {
            assert(view_ty_entries(out@)[j] == (out@[j].0@, view_ty(out@[j].1)));
            assert(view_ty_entries(v@)[j] == (v@[j].0@, view_ty(v@[j].1)));
        }
        assert(view_ty_entries(out@) =~= view_ty_entries(v@));
    }
    out
}

impl Analyzer {
    /// A fresh analyzer over the given ambient type library: one
    /// module scope, no imports, no diagnostics.
    pub fn new(libs: &Vec<(String, Type)>) -> (r: Analyzer)
        ensures
            r@ == init_analyzer(view_ty_entries(libs@)),
    {
        let mut scopes: Vec<ScopeFrame> = Vec::new();
        let f = new_frame(ScopeKind::Module);
        let ghost fv = f@;
        scopes.push(f);
        let r = Analyzer {
            cx: Cx { scopes, imports: Vec::new(), libs: dup_ty_entries(libs) },
            info: Info { exports: Vec::new(), errors: Vec::new() },
            pending_exports: Vec::new(),
            rets: Vec::new(),
        };
        proof {
            assert(view_frames(r.cx.scopes@) =~= seq![module_frame()]);
            assert(view_ty_entries(r.cx.imports@) =~= Seq::<(Seq<char>, TypeV)>::empty());
            assert(view_ty_entries(r.info.exports@) =~= Seq::<(Seq<char>, TypeV)>::empty());
            assert(view_errs(r.info.errors@) =~= Seq::<ErrorV>::empty());
            assert(view_pending(r.pending_exports@) =~= Seq::<(Seq<char>, Seq<char>, Span)>::empty());
            assert(crate::ty::view_tys(r.rets@) =~= Seq::<TypeV>::empty());
            assert(r@ =~~= init_analyzer(view_ty_entries(libs@)));
        }
        r
    }
}

/// Analyzes one module (§2, §4.8): the import results are merged, the
/// items folded, and the deferred exports resolved; the result is the
/// module's export table and diagnostics.
pub fn analyze(
    libs: &Vec<(String, Type)>,
    rule: Rule,
    m: &Module,
    import_results: Vec<(ImportInfo, Result<Vec<(String, Type)>, Error>)>,
) -> (r: Info)
    ensures
        r@ == spec_analyze(view_ty_entries(libs@), *m, import_results@),
{
    let mut a = Analyzer::new(libs);
    let mut results = import_results;
    let ghost all = results@;
    let ghost a0 = a@;
    while results.len() > 0
        invariant
            spec_merge_imports(a0, all) == spec_merge_imports(a@, results@),
        decreases results@.len(),
    {
        let ghost pre = results@;
        let head = results.remove(0);
        proof {
            assert(results@ =~= pre.drop_first());
        }
        let (import, res) = head;
        merge_import_exec(&mut a, &import, res);
    }
    proof {
        assert(m.items@.skip(0) =~= m.items@);
    }
    visit_items_exec(&mut a, &m.items, 0);
    proof {
        assert(a@.pending.skip(0) =~= a@.pending);
    }
    handle_pending_exec(&mut a, 0);
    let out = a.info;
    proof {
        assert(out@ =~~= spec_analyze(view_ty_entries(libs@), *m, all));
    }
    out
}

// ------------------------------------------------------------------
// The loader's compute step, and the import pre-pass (§4.8, §6).
// ------------------------------------------------------------------

/// What a selection finds: the requested items keyed by local name,
/// and a no-such-export error for each missing one.
pub open spec fn spec_select(
    exports: Seq<(Seq<char>, TypeV)>,
    items: Seq<Specifier>,
) -> (Seq<(Seq<char>, TypeV)>, Seq<ErrorV>)
    decreases items.len(),
{
    if items.len() == 0 {
        (Seq::empty(), Seq::empty())
    } else {
        let rest = spec_select(exports, items.drop_first());
        match assoc_ty(exports, items[0].export.0@) {
            Option::Some(t) => (seq![(items[0].local.0@, t)] + rest.0, rest.1),
            Option::None => (
                rest.0,
                seq![
                    ErrorV::NoSuchExport {
                        span: items[0].export.1,
                        name: items[0].export.0@,
                    },
                ] + rest.1,
            ),
        }
    }
}

/// What one import takes from a module's export table (§6): with
/// `all`, every export; otherwise the requested items, and the
/// missing ones grouped into one diagnostic at the import.
pub open spec fn spec_select_exports(
    exports: Seq<(Seq<char>, TypeV)>,
    import: ImportInfo,
) -> Result<Seq<(Seq<char>, TypeV)>, ErrorV> {
    if import.all {
        Result::Ok(exports)
    } else {
        let se = spec_select(exports, import.items@);
        if se.1.len() == 0 {
            Result::Ok(se.0)
        } else {
            Result::Err(ErrorV::Grouped { span: import.span, errors: se.1 })
        }
    }
}

fn select_from(
    exports: &Vec<(String, Type)>,
    items: &Vec<Specifier>,
    i: usize,
) -> (r: (Vec<(String, Type)>, Vec<Error>))
    requires
        i <= items@.len(),
    ensures
        view_ty_entries(r.0@) == spec_select(view_ty_entries(exports@), items@.skip(i as int)).0,
        view_errs(r.1@) == spec_select(view_ty_entries(exports@), items@.skip(i as int)).1,
    decreases items@.len() - i,
{
    if i == items.len() {
        let out: (Vec<(String, Type)>, Vec<Error>) = (Vec::new(), Vec::new());
        proof {
            assert(items@.skip(i as int) =~= Seq::<Specifier>::empty());
            assert(view_ty_entries(out.0@) =~= Seq::<(Seq<char>, TypeV)>::empty());
            assert(view_errs(out.1@) =~= Seq::<ErrorV>::empty());
        }
        return out;
    }
    proof {
        assert(items@.skip(i as int)[0] == items@[i as int]);
        assert(items@.skip(i as int).drop_first() =~= items@.skip(i + 1));
    }
    let rest = select_from(exports, items, i + 1);
    match lookup_ty(exports, &items[i].export.0) {
        Option::Some(t) => {
            let ghost r0v = rest.0@;
            let (mut sel, errs) = rest;
            let local = dup_string(&items[i].local.0);
            sel.insert(0, (local, t));
            proof {
                assert(sel@.drop_first() =~= r0v);
                assert(view_ty_entries(sel@) =~= seq![
                    (items@[i as int].local.0@, view_ty(sel@[0].1)),
                ] + view_ty_entries(r0v));
            }
            (sel, errs)
        },
        Option::None => {
            let ghost r1v = rest.1@;
            let (sel, mut errs) = rest;
            let h = Error::NoSuchExport {
                span: items[i].export.1,
                name: dup_string(&items[i].export.0),
            };
            let ghost hv = h@;
            errs.insert(0, h);
            proof {
                crate::errors::lemma_view_errs(errs@);
                crate::errors::lemma_view_errs(r1v);
                assert(errs@[0]@ == hv);
                assert(errs@.drop_first() =~= r1v);
                assert(view_errs(errs@) =~= seq![hv] + view_errs(r1v));
            }
            (sel, errs)
        },
    }
}

/// The loader's compute step: filters a module's export table by one
/// import's request. With `all`, every export is returned; otherwise
/// only the requested items, keyed by their local names, and the
/// missing ones are one grouped no-such-export diagnostic.
pub fn select_exports(exports: &Vec<(String, Type)>, import: &ImportInfo) -> (r: Result<
    Vec<(String, Type)>,
    Error,
>)
    ensures
        (match spec_select_exports(view_ty_entries(exports@), *import) {
            Result::Ok(sel) => r matches Result::Ok(v) && view_ty_entries(v@) == sel,
            Result::Err(e) => r matches Result::Err(re) && re@ == e,
        }),
{
    if import.all {
        Result::Ok(dup_ty_entries(exports))
    } else {
        proof {
            assert(import.items@.skip(0) =~= import.items@);
        }
        let (sel, errs) = select_from(exports, &import.items, 0);
        if errs.len() == 0 {
            Result::Ok(sel)
        } else {
            Result::Err(Error::Grouped { span: import.span, errors: errs })
        }
    }
}

/// The import declarations of a module, in order (§4.8): the pre-pass
/// the driver resolves before analysis.
pub open spec fn spec_find_imports(items: Seq<ModuleItem>) -> Seq<ImportInfo>
    decreases items.len(),
{
    if items.len() == 0 {
        Seq::empty()
    } else {
        (match items[0] {
            ModuleItem::Import { import } => seq![import],
            _ => Seq::empty(),
        }) + spec_find_imports(items.drop_first())
    }
}

/// Are two import descriptors the same request?
pub open spec fn same_import(a: ImportInfo, b: ImportInfo) -> bool {
    &&& a.span == b.span
    &&& a.all == b.all
    &&& a.src@ == b.src@
    &&& a.items@.len() == b.items@.len()
    &&& forall|j: int|
        0 <= j < a.items@.len() ==> (#[trigger] a.items@[j]).local.0@ == b.items@[j].local.0@
            && a.items@[j].local.1 == b.items@[j].local.1 && a.items@[j].export.0@
            == b.items@[j].export.0@ && a.items@[j].export.1 == b.items@[j].export.1
}

fn dup_specifiers(ss: &Vec<Specifier>) -> (r: Vec<Specifier>)
    ensures
        r@.len() == ss@.len(),
        forall|j: int|
            0 <= j < ss@.len() ==> (#[trigger] r@[j]).local.0@ == ss@[j].local.0@ && r@[j].local.1
                == ss@[j].local.1 && r@[j].export.0@ == ss@[j].export.0@ && r@[j].export.1
                == ss@[j].export.1,
{
    let mut out: Vec<Specifier> = Vec::new();
    let n = ss.len();
    let mut i: usize = 0;
    while i < n
        invariant
            n == ss@.len(),
            out@.len() == i,
            i <= n,
            forall|j: int|
                0 <= j < i ==> (#[trigger] out@[j]).local.0@ == ss@[j].local.0@ && out@[j].local.1
                    == ss@[j].local.1 && out@[j].export.0@ == ss@[j].export.0@ && out@[j].export.1
                    == ss@[j].export.1,
        decreases n - i,
    {
        let sp = Specifier {
            local: (dup_string(&ss[i].local.0), ss[i].local.1),
            export: (dup_string(&ss[i].export.0), ss[i].export.1),
        };
        out.push(sp);
        i += 1;
    }
    out
}

/// The import pre-pass: collects the module's import declarations, in
/// order.
pub fn find_imports(m: &Module) -> (r: Vec<ImportInfo>)
    ensures
        r@.len() == spec_find_imports(m.items@).len(),
        forall|k: int|
            0 <= k < r@.len() ==> same_import(
                #[trigger] r@[k],
                spec_find_imports(m.items@)[k],
            ),
{
    proof {
        assert(m.items@.skip(0) =~= m.items@);
    }
    find_imports_from(&m.items, 0)
}

fn find_imports_from(items: &Vec<ModuleItem>, i: usize) -> (r: Vec<ImportInfo>)
    requires
        i <= items@.len(),
    ensures
        r@.len() == spec_find_imports(items@.skip(i as int)).len(),
        forall|k: int|
            0 <= k < r@.len() ==> same_import(
                #[trigger] r@[k],
                spec_find_imports(items@.skip(i as int))[k],
            ),
    decreases items@.len() - i,
{
    if i == items.len() {
        let out: Vec<ImportInfo> = Vec::new();
        proof {
            assert(items@.skip(i as int) =~= Seq::<ModuleItem>::empty());
        }
        return out;
    }
    proof {
        assert(items@.skip(i as int)[0] == items@[i as int]);
        assert(items@.skip(i as int).drop_first() =~= items@.skip(i + 1));
    }
    let rest = find_imports_from(items, i + 1);
    match &items[i] {
        ModuleItem::Import { import } => {
            let h = ImportInfo {
                span: import.span,
                items: dup_specifiers(&import.items),
                all: import.all,
                src: dup_string(&import.src),
            };
            let ghost restv = rest@;
            let mut out = rest;
            out.insert(0, h);
            proof {
                assert(out@.drop_first() =~= restv);
                assert(same_import(out@[0], spec_find_imports(items@.skip(i as int))[0]));
            }
            out
        },
        _ => {
            proof {
                match items@[i as int] {
                    ModuleItem::Import { .. } => {
                        assert(false);
                    },
                    _ => {},
                }
            }
            rest
        },
    }
}

/// Determinism: analyzing a module twice, with the same ambient
/// library and the same import outcomes, yields equal error lists and
/// equal export tables.
pub proof fn lemma_analyze_deterministic(
    libs: Seq<(Seq<char>, TypeV)>,
    m: Module,
    results: Seq<(ImportInfo, Result<Vec<(String, Type)>, Error>)>,
    i1: InfoV,
    i2: InfoV,
)
    requires
        i1 == spec_analyze(libs, m, results),
        i2 == spec_analyze(libs, m, results),
    ensures
        i1.errors == i2.errors,
        i1.exports == i2.exports,
{
}

/// Appending a module item never disturbs the analysis of the items
/// before it: the fold over the longer list is the fold over the
/// shorter list continued by one step. Removing the last item
/// therefore leaves exactly the shorter analysis.
pub proof fn lemma_items_monotone(a: AnalyzerV, items: Seq<ModuleItem>, extra: ModuleItem)
    ensures
        spec_visit_items(a, items.push(extra)) == spec_visit_item(
            spec_visit_items(a, items),
            extra,
        ),
    decreases items.len(),
{
    if items.len() == 0 {
        assert(items.push(extra)[0] == extra);
        assert(items.push(extra).drop_first() =~= Seq::<ModuleItem>::empty());
        assert(spec_visit_items(spec_visit_item(a, extra), Seq::<ModuleItem>::empty())
            == spec_visit_item(a, extra));
        assert(spec_visit_items(a, Seq::<ModuleItem>::empty()) == a);
    } else {
        lemma_items_monotone(spec_visit_item(a, items[0]), items.drop_first(), extra);
        assert(items.push(extra)[0] == items[0]);
        assert(items.push(extra).drop_first() =~= items.drop_first().push(extra));
    }
}

/// The literal round trip: the type of a literal expression, widened,
/// is the keyword type of the literal.
pub proof fn lemma_literal_round_trip(cx: CxV, span: Span, lit: crate::ty::LitValue)
    ensures
        spec_type_of(cx, Expr::Lit { span, lit }) matches Result::Ok(t) && widen_v(t) == kw(
            span,
            crate::ty::keyword_of_lit(lit@),
        ),
{
    assert(spec_type_of(cx, Expr::Lit { span, lit }) == Result::<TypeV, ErrorV>::Ok(
        TypeV::Lit { span, lit: lit@ },
    ));
    match lit@ {
        crate::ty::LitV::Bool(..) => {},
        crate::ty::LitV::Num(..) => {},
        crate::ty::LitV::Str(..) => {},
    }
}

} // verus!
