//! Expression typing: the total function from expressions to types,
//! together with member access, call and construct resolution,
//! instantiation, and shallow type expansion.

use vstd::prelude::*;

use crate::ast::{
    ArrayElem, BinOp, Callee, ClassData, ClassMember, Expr, FnData, MemberKey, ObjectProp, Param,
    Stmt, UnaryOp,
};
use crate::assign::{assignable, ty_size, lemma_tys_size_mem, lemma_tys_size_tail};
use crate::errors::{Error, ErrorV};
use crate::scope::{
    assoc_ty, find_fact_v, find_this_v, find_type_v, find_var_v, CxV, FrameV, ScopeKind,
    VarInfoV,
};
use crate::ty::{
    dummy_span, keyword_of_lit, negate_v, same_ty, same_ty_no_names, span_of_v, union_of_v,
    view_elems, view_params, view_ty, view_tys, widen_v, EnumMemberV, FnParamV, KeywordKind, LitV, PropKey,
    PropKeyV, Span, Type, TypeElementV, TypeParamDecl, TypeV,
};

verus! {

/// The ghost value of a `Result` of typing.
pub open spec fn res_v(r: Result<Type, Error>) -> Result<TypeV, ErrorV> {
    match r {
        Result::Ok(t) => Result::Ok(view_ty(t)),
        Result::Err(e) => Result::Err(crate::errors::view_err(e)),
    }
}

/// The keyword type at a span.
pub open spec fn kw(span: Span, kind: KeywordKind) -> TypeV {
    TypeV::Keyword { span, kind }
}

// ------------------------------------------------------------------
// Identifier typing.
// ------------------------------------------------------------------

/// The type of the identifier `name` (§4.2): narrowing facts first,
/// then variable bindings (an untyped binding reads as `any`), then
/// type bindings, then resolved imports, then the ambient library.
pub open spec fn spec_ident_type(cx: CxV, span: Span, name: Seq<char>) -> Result<TypeV, ErrorV> {
    match find_fact_v(cx.scopes, name) {
        Option::Some(t) => Result::Ok(t),
        Option::None => match find_var_v(cx.scopes, name) {
            Option::Some(vi) => match vi.ty {
                Option::Some(t) => Result::Ok(t),
                Option::None => Result::Ok(kw(span, KeywordKind::Any)),
            },
            Option::None => match find_type_v(cx.scopes, name) {
                Option::Some(t) => Result::Ok(t),
                Option::None => match assoc_ty(cx.imports, name) {
                    Option::Some(t) => Result::Ok(t),
                    Option::None => match assoc_ty(cx.libs, name) {
                        Option::Some(t) => Result::Ok(t),
                        Option::None => Result::Err(ErrorV::UndefinedSymbol { span }),
                    },
                },
            },
        },
    }
}

// ------------------------------------------------------------------
// Property keys and member search.
// ------------------------------------------------------------------

/// The property name a non-computed member expression asks for, if it
/// is a plain identifier or string literal.
pub open spec fn prop_name_of(prop: Expr) -> Option<Seq<char>> {
    match prop {
        Expr::Ident { name, .. } => Option::Some(name@),
        Expr::Lit { lit: crate::ty::LitValue::Str(s), .. } => Option::Some(s@),
        _ => Option::None,
    }
}

/// Does a member key name `name`?
pub open spec fn key_names(k: PropKeyV, name: Seq<char>) -> bool {
    match k {
        PropKeyV::Ident { name: n, .. } => n == name,
        PropKeyV::StrKey { value, .. } => value == name,
        PropKeyV::NumKey { .. } => false,
    }
}

/// The first property signature named `name` in `members`.
pub open spec fn find_property(members: Seq<TypeElementV>, name: Seq<char>) -> Option<
    Option<Box<TypeV>>,
>
    decreases members.len(),
{
    if members.len() == 0 {
        Option::None
    } else {
        match members[0] {
            TypeElementV::Property { key, ty, .. } => if key_names(key, name) {
                Option::Some(ty)
            } else {
                find_property(members.drop_first(), name)
            },
            _ => find_property(members.drop_first(), name),
        }
    }
}

/// The method signatures named `name` in `members`, in order.
pub open spec fn methods_named(members: Seq<TypeElementV>, name: Seq<char>) -> Seq<
    TypeElementV,
>
    decreases members.len(),
{
    if members.len() == 0 {
        Seq::empty()
    } else {
        let rest = methods_named(members.drop_first(), name);
        match members[0] {
            TypeElementV::Method { key, .. } => if key_names(key, name) {
                seq![members[0]] + rest
            } else {
                rest
            },
            _ => rest,
        }
    }
}

/// The return type a member signature declares, with `any` where the
/// annotation is missing.
pub open spec fn sig_ret_or_any(e: TypeElementV, span: Span) -> TypeV {
    match e {
        TypeElementV::Method { ret: Option::Some(b), .. } => *b,
        TypeElementV::CallSig { ret: Option::Some(b), .. } => *b,
        TypeElementV::ConstructSig { ret: Option::Some(b), .. } => *b,
        _ => kw(span, KeywordKind::Any),
    }
}

pub open spec fn sig_params_len(e: TypeElementV) -> nat {
    match e {
        TypeElementV::Method { params, .. } => params.len(),
        TypeElementV::CallSig { params, .. } => params.len(),
        TypeElementV::ConstructSig { params, .. } => params.len(),
        _ => 0,
    }
}

/// The first candidate whose declared arity equals `n`.
pub open spec fn first_with_arity(cands: Seq<TypeElementV>, n: nat) -> Option<TypeElementV>
    decreases cands.len(),
{
    if cands.len() == 0 {
        Option::None
    } else if sig_params_len(cands[0]) == n {
        Option::Some(cands[0])
    } else {
        first_with_arity(cands.drop_first(), n)
    }
}

// ------------------------------------------------------------------
// Enums.
// ------------------------------------------------------------------

/// The index of the member named `name`.
pub open spec fn enum_member_index(members: Seq<EnumMemberV>, name: Seq<char>) -> Option<int>
    decreases members.len(),
{
    if members.len() == 0 {
        Option::None
    } else if members[0].name == name {
        Option::Some(0)
    } else {
        match enum_member_index(members.drop_first(), name) {
            Option::Some(i) => Option::Some(i + 1),
            Option::None => Option::None,
        }
    }
}

/// The literal type an enum member projects to: its constant
/// initializer, or its ordinal as a numeric literal.
pub open spec fn enum_member_lit(members: Seq<EnumMemberV>, i: int, span: Span) -> LitV {
    match members[i].init {
        Option::Some(l) => l,
        Option::None => LitV::Num(i as i64),
    }
}

pub open spec fn is_str_init(m: EnumMemberV) -> bool {
    m.init matches Option::Some(LitV::Str(..))
}

/// Does any member carry a string initializer?
pub open spec fn enum_has_str_member(members: Seq<EnumMemberV>) -> bool {
    exists|i: int| 0 <= i < members.len() && is_str_init(#[trigger] members[i])
}

/// The base keyword an enum widens to: `string` when a member has a
/// string initializer, else `number`.
pub open spec fn enum_base_kind(members: Seq<EnumMemberV>) -> KeywordKind {
    if enum_has_str_member(members) {
        KeywordKind::Str
    } else {
        KeywordKind::Number
    }
}

/// The ambient wrapper name a primitive dispatches to.
pub open spec fn builtin_wrapper_name(kind: KeywordKind) -> Option<Seq<char>> {
    match kind {
        KeywordKind::Number => Option::Some("Number"@),
        KeywordKind::Str => Option::Some("String"@),
        KeywordKind::Boolean => Option::Some("Boolean"@),
        KeywordKind::Symbol => Option::Some("Symbol"@),
        _ => Option::None,
    }
}

// ------------------------------------------------------------------
// Member access.
// ------------------------------------------------------------------

/// The members of a structural object type, where it has them.
pub open spec fn members_of(t: TypeV) -> Option<Seq<TypeElementV>> {
    match t {
        TypeV::TypeLit { members, .. } => Option::Some(members),
        TypeV::Class { body, .. } => Option::Some(body),
        TypeV::Interface { body, .. } => Option::Some(body),
        _ => Option::None,
    }
}

/// The rank that bounds the re-projection steps of member access: an
/// enum variant projects to a literal, a literal widens to a keyword,
/// and a keyword dispatches to its ambient wrapper.
pub open spec fn access_rank(t: TypeV) -> nat {
    match t {
        TypeV::EnumVariant { .. } => 3,
        TypeV::Lit { .. } => 2,
        TypeV::Keyword { .. } => 1,
        _ => 0,
    }
}

/// Member access `obj.prop` (§4.3). A literal object widens first; an
/// enum yields its variant; an enum variant re-projects through the
/// member's initializer (or ordinal) and recurses; a structural type
/// is searched for a property signature; a primitive keyword
/// dispatches to its ambient wrapper; `any` gives `any`.
pub open spec fn spec_access_property(
    cx: CxV,
    span: Span,
    obj: TypeV,
    name: Seq<char>,
) -> Result<TypeV, ErrorV>
    decreases access_rank(obj),
{
    match obj {
        TypeV::Lit { span: lspan, lit } => spec_access_property(
            cx,
            span,
            kw(lspan, keyword_of_lit(lit)),
            name,
        ),
        TypeV::Enum { name: ename, .. } => Result::Ok(
            TypeV::EnumVariant { span, enum_name: ename, name },
        ),
        TypeV::EnumVariant { enum_name, name: vname, .. } => match find_type_v(
            cx.scopes,
            enum_name,
        ) {
            Option::Some(TypeV::Enum { members, .. }) => match enum_member_index(
                members,
                vname,
            ) {
                Option::Some(i) => spec_access_property(
                    cx,
                    span,
                    TypeV::Lit { span, lit: enum_member_lit(members, i, span) },
                    name,
                ),
                Option::None => Result::Err(ErrorV::UndefinedSymbol { span }),
            },
            _ => Result::Err(ErrorV::UndefinedSymbol { span }),
        },
        TypeV::Keyword { kind: KeywordKind::Any, .. } => Result::Ok(kw(span, KeywordKind::Any)),
        TypeV::Keyword { kind, .. } => match builtin_wrapper_name(kind) {
            Option::Some(wname) => match assoc_ty(cx.libs, wname) {
                Option::Some(w) => match members_of(w) {
                    Option::Some(ms) => match find_property(ms, name) {
                        Option::Some(Option::Some(t)) => Result::Ok(*t),
                        Option::Some(Option::None) => Result::Ok(kw(span, KeywordKind::Any)),
                        Option::None => Result::Err(ErrorV::UndefinedSymbol { span }),
                    },
                    Option::None => Result::Err(ErrorV::UndefinedSymbol { span }),
                },
                Option::None => Result::Err(ErrorV::UndefinedSymbol { span }),
            },
            Option::None => Result::Err(ErrorV::UndefinedSymbol { span }),
        },
        _ => match members_of(obj) {
            Option::Some(ms) => match find_property(ms, name) {
                Option::Some(Option::Some(t)) => Result::Ok(*t),
                Option::Some(Option::None) => Result::Ok(kw(span, KeywordKind::Any)),
                Option::None => Result::Err(ErrorV::UndefinedSymbol { span }),
            },
            Option::None => Result::Err(ErrorV::Unsupported { span }),
        },
    }
}

/// The type whose members a method call on `obj` searches: an enum
/// variant re-projects to its literal, a literal widens, an enum
/// widens to its base keyword, and a primitive keyword dispatches to
/// its ambient wrapper.
pub open spec fn spec_member_host(cx: CxV, span: Span, obj: TypeV) -> Result<TypeV, ErrorV> {
    let projected = (match obj {
        TypeV::EnumVariant { enum_name, name: vname, .. } => match find_type_v(
            cx.scopes,
            enum_name,
        ) {
            Option::Some(TypeV::Enum { members, .. }) => match enum_member_index(
                members,
                vname,
            ) {
                Option::Some(i) => Result::Ok(
                    TypeV::Lit { span, lit: enum_member_lit(members, i, span) },
                ),
                Option::None => Result::Err(ErrorV::UndefinedSymbol { span }),
            },
            _ => Result::Err(ErrorV::UndefinedSymbol { span }),
        },
        TypeV::Enum { members, .. } => Result::Ok(kw(span, enum_base_kind(members))),
        other => Result::Ok(other),
    });
    match projected {
        Result::Err(e) => Result::Err(e),
        Result::Ok(p) => {
            let w = widen_v(p);
            match w {
                TypeV::Keyword { kind: KeywordKind::Any, .. } => Result::Ok(w),
                TypeV::Keyword { kind, .. } => match builtin_wrapper_name(kind) {
                    Option::Some(wname) => match assoc_ty(cx.libs, wname) {
                        Option::Some(wt) => Result::Ok(wt),
                        Option::None => Result::Err(ErrorV::UndefinedSymbol { span }),
                    },
                    Option::None => Result::Ok(w),
                },
                _ => Result::Ok(w),
            }
        },
    }
}

// ------------------------------------------------------------------
// Instantiation and call extraction.
// ------------------------------------------------------------------

#[derive(Clone, Copy, Debug, PartialEq, Eq, Structural)]
pub enum ExtractKind {
    Call,
    New,
}

/// The number of required (non-optional) parameters.
pub open spec fn required_count(ps: Seq<FnParamV>) -> nat
    decreases ps.len(),
{
    if ps.len() == 0 {
        0
    } else {
        (if ps[0].optional {
            0
        } else {
            1 as nat
        }) + required_count(ps.drop_first())
    }
}

/// The substitution map instantiation builds (§4.4): each type
/// parameter is bound to the actual in its position, or to its
/// declared default when the actuals run out; one with neither is
/// left free.
pub open spec fn spec_param_map(
    tps: Seq<crate::ty::TypeParamDeclV>,
    targs: Seq<TypeV>,
) -> Seq<(Seq<char>, TypeV)>
    decreases tps.len(),
{
    if tps.len() == 0 {
        Seq::empty()
    } else {
        (if targs.len() > 0 {
            seq![(tps[0].name, targs[0])]
        } else {
            match tps[0].default {
                Option::Some(d) => seq![(tps[0].name, *d)],
                Option::None => Seq::empty(),
            }
        }) + spec_param_map(
            tps.drop_first(),
            if targs.len() > 0 {
                targs.drop_first()
            } else {
                targs
            },
        )
    }
}

/// Instantiation (§4.4): the number of actual arguments must fall in
/// `[min, max]` where `min` counts non-optional formals and `max` is
/// all formals; the result is the formal return type with its type
/// parameters substituted by the actuals. Type-argument arity is left
/// unchecked, deliberately (§9).
pub open spec fn spec_try_instantiate(
    span: Span,
    callee_span: Span,
    ret: TypeV,
    params: Seq<FnParamV>,
    type_params: Seq<crate::ty::TypeParamDeclV>,
    targs: Seq<TypeV>,
    n_args: nat,
) -> Result<TypeV, ErrorV> {
    let min = required_count(params);
    if min <= n_args && n_args <= params.len() {
        Result::Ok(crate::subst::subst_ty(spec_param_map(type_params, targs), ret))
    } else {
        Result::Err(
            ErrorV::WrongParams {
                span,
                callee: callee_span,
                min,
                max: params.len(),
                actual: n_args,
            },
        )
    }
}

/// The first call (or construct) signature in `members` whose
/// instantiation succeeds, or the errors in turn.
pub open spec fn spec_search_signatures(
    members: Seq<TypeElementV>,
    kind: ExtractKind,
    span: Span,
    callee_span: Span,
    n_args: nat,
    targs: Seq<TypeV>,
) -> Option<TypeV>
    decreases members.len(),
{
    if members.len() == 0 {
        Option::None
    } else {
        let rest = spec_search_signatures(
            members.drop_first(),
            kind,
            span,
            callee_span,
            n_args,
            targs,
        );
        match members[0] {
            TypeElementV::CallSig { params, type_params, ret, .. } => if kind
                == ExtractKind::Call {
                match spec_try_instantiate(
                    span,
                    callee_span,
                    sig_ret_or_any(members[0], span),
                    params,
                    type_params,
                    targs,
                    n_args,
                ) {
                    Result::Ok(t) => Option::Some(t),
                    Result::Err(..) => rest,
                }
            } else {
                rest
            },
            TypeElementV::ConstructSig { params, type_params, ret, .. } => if kind
                == ExtractKind::New {
                match spec_try_instantiate(
                    span,
                    callee_span,
                    sig_ret_or_any(members[0], span),
                    params,
                    type_params,
                    targs,
                    n_args,
                ) {
                    Result::Ok(t) => Option::Some(t),
                    Result::Err(..) => rest,
                }
            } else {
                rest
            },
            _ => rest,
        }
    }
}

/// The error a failed extraction reports.
pub open spec fn no_sig_err(kind: ExtractKind, span: Span) -> ErrorV {
    if kind == ExtractKind::Call {
        ErrorV::NoCallSignature { span }
    } else {
        ErrorV::NoNewSignature { span }
    }
}

/// Call/construct extraction on a callee type (§4.4 step 3).
pub open spec fn spec_extract(
    cx: CxV,
    span: Span,
    ty: TypeV,
    kind: ExtractKind,
    n_args: nat,
    targs: Seq<TypeV>,
) -> Result<TypeV, ErrorV>
    decreases ty_size(ty),
{
    match ty {
        TypeV::Keyword { kind: KeywordKind::Any, .. } => Result::Ok(kw(span, KeywordKind::Any)),
        TypeV::Function { params, type_params, ret, .. } => if kind == ExtractKind::Call {
            spec_try_instantiate(span, span_of_v(ty), *ret, params, type_params, targs, n_args)
        } else {
            Result::Err(no_sig_err(kind, span))
        },
        TypeV::Constructor { params, type_params, ret, .. } => if kind == ExtractKind::New {
            spec_try_instantiate(span, span_of_v(ty), *ret, params, type_params, targs, n_args)
        } else {
            Result::Err(no_sig_err(kind, span))
        },
        TypeV::Class { .. } => if kind == ExtractKind::New {
            Result::Ok(ty)
        } else {
            Result::Err(no_sig_err(kind, span))
        },
        TypeV::Union { types, .. } => {
            proof {
                crate::assign::lemma_union_members_smaller(ty);
            }
            match spec_extract_union_go(cx, span, types, kind, n_args, targs) {
                Result::Ok(t) => Result::Ok(t),
                Result::Err(errs) => Result::Err(ErrorV::UnionError { span, errors: errs }),
            }
        },
        TypeV::Interface { body, .. } => match spec_search_signatures(
            body,
            kind,
            span,
            span_of_v(ty),
            n_args,
            targs,
        ) {
            Option::Some(t) => Result::Ok(t),
            Option::None => Result::Err(no_sig_err(kind, span)),
        },
        TypeV::TypeLit { members, .. } => match spec_search_signatures(
            members,
            kind,
            span,
            span_of_v(ty),
            n_args,
            targs,
        ) {
            Option::Some(t) => Result::Ok(t),
            Option::None => Result::Err(no_sig_err(kind, span)),
        },
        _ => Result::Err(no_sig_err(kind, span)),
    }
}

pub open spec fn tys_size_local(ts: Seq<TypeV>) -> nat {
    crate::assign::tys_size(ts)
}

/// Extraction over a union: the first member that succeeds wins; when
/// all fail, the member errors are collected in order.
// ------------------------------------------------------------------
// Type expansion (§4.1): rewriting the outermost head of a type.
// ------------------------------------------------------------------

/// Shallow type expansion. A reference to an ambient type is replaced
/// by it; a reference to an enum resolves (type arguments on an enum
/// are rejected); interfaces and classes resolve to their
/// declarations; `A.B` over an enum becomes an enum variant; a type
/// query takes the identifier's type at the query site; union and
/// intersection members are each expanded. In a strict context an
/// unresolved head is an undefined-symbol error.
/// One head-rewriting step of expansion: the `Ref` rules of §4.1 on
/// the outermost node; every other head is left as it is.
pub open spec fn spec_fix_head(
    cx: CxV,
    span: Span,
    t: TypeV,
    strict: bool,
) -> Result<TypeV, ErrorV> {
    match t {
        TypeV::Ref { name, member: Option::None, type_args, .. } => match assoc_ty(
            cx.libs,
            name,
        ) {
            Option::Some(t2) => Result::Ok(t2),
            Option::None => match find_type_v(cx.scopes, name) {
                Option::Some(found) => match found {
                    TypeV::Enum { .. } => if type_args.len() > 0 {
                        Result::Err(ErrorV::Unsupported { span })
                    } else {
                        Result::Ok(found)
                    },
                    TypeV::Interface { .. } => Result::Ok(found),
                    TypeV::Class { .. } => Result::Ok(found),
                    _ => Result::Ok(t),
                },
                Option::None => if strict {
                    Result::Err(ErrorV::UndefinedSymbol { span })
                } else {
                    Result::Ok(t)
                },
            },
        },
        TypeV::Ref { name, member: Option::Some(m), .. } => match find_type_v(cx.scopes, name) {
            Option::Some(TypeV::Enum { .. }) => Result::Ok(
                TypeV::EnumVariant { span, enum_name: name, name: m },
            ),
            Option::Some(..) => Result::Ok(t),
            Option::None => if strict {
                Result::Err(ErrorV::UndefinedSymbol { span })
            } else {
                Result::Ok(t)
            },
        },
        _ => Result::Ok(t),
    }
}

pub open spec fn spec_fix_type(
    cx: CxV,
    span: Span,
    t: TypeV,
    strict: bool,
) -> Result<TypeV, ErrorV>
    decreases ty_size(t),
{
    match t {
        TypeV::Ref { .. } => spec_fix_head(cx, span, t, strict),
        TypeV::Query { span: qspan, name } => match spec_ident_type(cx, qspan, name) {
            Result::Ok(t2) => spec_fix_head(cx, span, t2, strict),
            Result::Err(e) => Result::Err(e),
        },
        TypeV::Union { span: uspan, types } => {
            proof {
                crate::assign::lemma_union_members_smaller(t);
            }
            match spec_fix_types(cx, span, types, strict) {
                Result::Ok(ts) => Result::Ok(TypeV::Union { span: uspan, types: ts }),
                Result::Err(e) => Result::Err(e),
            }
        },
        TypeV::Intersection { span: ispan, types } => {
            proof {
                crate::assign::lemma_inter_members_smaller(t);
            }
            match spec_fix_types(cx, span, types, strict) {
                Result::Ok(ts) => Result::Ok(TypeV::Intersection { span: ispan, types: ts }),
                Result::Err(e) => Result::Err(e),
            }
        },
        _ => Result::Ok(t),
    }
}

pub open spec fn spec_fix_types(
    cx: CxV,
    span: Span,
    ts: Seq<TypeV>,
    strict: bool,
) -> Result<Seq<TypeV>, ErrorV>
    decreases tys_size_local(ts),
{
    if ts.len() == 0 {
        Result::Ok(Seq::empty())
    } else {
        proof {
            lemma_tys_size_mem(ts, 0);
            lemma_tys_size_tail(ts);
        }
        match spec_fix_type(cx, span, ts[0], strict) {
            Result::Err(e) => Result::Err(e),
            Result::Ok(t0) => match spec_fix_types(cx, span, ts.drop_first(), strict) {
                Result::Err(e) => Result::Err(e),
                Result::Ok(rest) => Result::Ok(seq![t0] + rest),
            },
        }
    }
}

/// Is every head of the type resolved — no reference and no query
/// left, in the type itself or in a union or intersection member?
pub open spec fn head_resolved(t: TypeV) -> bool
    decreases ty_size(t), 0nat,
{
    match t {
        TypeV::Ref { .. } => false,
        TypeV::Query { .. } => false,
        TypeV::Union { types, .. } => {
            proof {
                crate::assign::lemma_union_members_smaller(t);
            }
            heads_resolved(types)
        },
        TypeV::Intersection { types, .. } => {
            proof {
                crate::assign::lemma_inter_members_smaller(t);
            }
            heads_resolved(types)
        },
        _ => true,
    }
}

pub open spec fn heads_resolved(ts: Seq<TypeV>) -> bool
    decreases tys_size_local(ts), 1nat,
{
    if ts.len() == 0 {
        true
    } else {
        proof {
            lemma_tys_size_mem(ts, 0);
            lemma_tys_size_tail(ts);
        }
        head_resolved(ts[0]) && heads_resolved(ts.drop_first())
    }
}

/// Expansion leaves a head-resolved type unchanged.
pub proof fn lemma_fix_resolved(cx: CxV, span: Span, t: TypeV, strict: bool)
    requires
        head_resolved(t),
    ensures
        spec_fix_type(cx, span, t, strict) == Result::<TypeV, ErrorV>::Ok(t),
    decreases ty_size(t), 0nat,
{
    match t {
        TypeV::Union { span: uspan, types } => {
            crate::assign::lemma_union_members_smaller(t);
            lemma_fix_types_resolved(cx, span, types, strict);
        },
        TypeV::Intersection { span: ispan, types } => {
            crate::assign::lemma_inter_members_smaller(t);
            lemma_fix_types_resolved(cx, span, types, strict);
        },
        _ => {},
    }
}

pub proof fn lemma_fix_types_resolved(cx: CxV, span: Span, ts: Seq<TypeV>, strict: bool)
    requires
        heads_resolved(ts),
    ensures
        spec_fix_types(cx, span, ts, strict) == Result::<Seq<TypeV>, ErrorV>::Ok(ts),
    decreases tys_size_local(ts), 1nat,
{
    if ts.len() == 0 {
        assert(ts =~= Seq::<TypeV>::empty());
    } else {
        lemma_tys_size_mem(ts, 0);
        lemma_tys_size_tail(ts);
        lemma_fix_resolved(cx, span, ts[0], strict);
        lemma_fix_types_resolved(cx, span, ts.drop_first(), strict);
        assert(seq![ts[0]] + ts.drop_first() =~= ts);
    }
}

/// Expansion is idempotent (§4.1) wherever its result is head
/// resolved: expanding such a result again changes nothing. A result
/// that deliberately keeps an unresolved head — a reference to a type
/// alias, left lazy, or a binding whose stored annotation is itself a
/// type query — is exactly where a later pass may resolve further;
/// those results are left out here.
pub proof fn lemma_fix_type_idempotent(
    cx: CxV,
    span: Span,
    t: TypeV,
    strict: bool,
    u: TypeV,
)
    requires
        spec_fix_type(cx, span, t, strict) == Result::<TypeV, ErrorV>::Ok(u),
        head_resolved(u),
    ensures
        spec_fix_type(cx, span, u, strict) == Result::<TypeV, ErrorV>::Ok(u),
{
    lemma_fix_resolved(cx, span, u, strict);
}

// ------------------------------------------------------------------
// Removal of nullish members (`x!`).
// ------------------------------------------------------------------

pub open spec fn is_nullish(t: TypeV) -> bool {
    t matches TypeV::Keyword { kind: KeywordKind::Null, .. } || t matches TypeV::Keyword {
        kind: KeywordKind::Undefined,
        ..
    }
}

pub open spec fn filter_nullish(ts: Seq<TypeV>) -> Seq<TypeV>
    decreases ts.len(),
{
    if ts.len() == 0 {
        Seq::empty()
    } else {
        (if is_nullish(ts[0]) {
            Seq::empty()
        } else {
            seq![ts[0]]
        }) + filter_nullish(ts.drop_first())
    }
}

/// The type of `x!`: `null` and `undefined` drop out of a union; the
/// nullish keywords themselves become `never`; anything else is
/// unchanged.
pub open spec fn remove_falsy_v(t: TypeV) -> TypeV {
    match t {
        TypeV::Union { span, types } => union_of_v(span, filter_nullish(types)),
        TypeV::Keyword { span, kind: KeywordKind::Null } => kw(span, KeywordKind::Never),
        TypeV::Keyword { span, kind: KeywordKind::Undefined } => kw(span, KeywordKind::Never),
        _ => t,
    }
}

// ------------------------------------------------------------------
// Conversion of declared shapes into the type model.
// ------------------------------------------------------------------

/// A declared parameter as a function-type parameter.
pub open spec fn view_ast_param(p: Param) -> FnParamV {
    FnParamV {
        span: p.span,
        name: p.name@,
        optional: p.optional,
        ty: match p.ty {
            Option::Some(t) => Option::Some(Box::new(view_ty(t))),
            Option::None => Option::None,
        },
    }
}

pub open spec fn view_ast_params(ps: Seq<Param>) -> Seq<FnParamV>
    decreases ps.len(),
{
    if ps.len() == 0 {
        Seq::empty()
    } else {
        seq![view_ast_param(ps[0])] + view_ast_params(ps.drop_first())
    }
}

/// The member list of a class type (§4.5): methods and properties
/// under plain keys become signatures, a constructor becomes a
/// construct signature; computed keys and index signatures are
/// carried as nothing.
pub open spec fn class_elems(body: Seq<ClassMember>) -> Seq<TypeElementV>
    decreases body.len(),
{
    if body.len() == 0 {
        Seq::empty()
    } else {
        let rest = class_elems(body.drop_first());
        (match body[0] {
            ClassMember::Method {
                span,
                key: MemberKey::Plain(k),
                func,
                ..
            } => seq![
                TypeElementV::Method {
                    span,
                    key: k@,
                    params: view_ast_params(func.params@),
                    type_params: crate::ty::view_type_params(func.type_params@),
                    ret: match func.return_type {
                        Option::Some(t) => Option::Some(Box::new(view_ty(t))),
                        Option::None => Option::None,
                    },
                },
            ],
            ClassMember::Prop { span, key: MemberKey::Plain(k), ty, .. } => seq![
                TypeElementV::Property {
                    span,
                    key: k@,
                    optional: false,
                    readonly: false,
                    ty: match ty {
                        Option::Some(t) => Option::Some(Box::new(view_ty(t))),
                        Option::None => Option::None,
                    },
                },
            ],
            ClassMember::Constructor { span, params, .. } => seq![
                TypeElementV::ConstructSig {
                    span,
                    params: ctor_params_v(params@),
                    type_params: Seq::empty(),
                    ret: Option::None,
                },
            ],
            _ => Seq::empty(),
        }) + rest
    }
}

pub open spec fn ctor_params_v(ps: Seq<crate::ast::CtorParam>) -> Seq<FnParamV>
    decreases ps.len(),
{
    if ps.len() == 0 {
        Seq::empty()
    } else {
        seq![view_ast_param(ps[0].param)] + ctor_params_v(ps.drop_first())
    }
}

/// The structural type of a class (§4.5).
pub open spec fn spec_class_type(
    span: Span,
    name: Option<Seq<char>>,
    body: Seq<ClassMember>,
) -> TypeV {
    TypeV::Class { span, name, body: class_elems(body) }
}

pub open spec fn spec_extract_union_go(
    cx: CxV,
    span: Span,
    types: Seq<TypeV>,
    kind: ExtractKind,
    n_args: nat,
    targs: Seq<TypeV>,
) -> Result<TypeV, Seq<ErrorV>>
    decreases tys_size_local(types),
{
    if types.len() == 0 {
        Result::Err(Seq::empty())
    } else {
        proof {
            lemma_tys_size_mem(types, 0);
            lemma_tys_size_tail(types);
        }
        match spec_extract(cx, span, types[0], kind, n_args, targs) {
            Result::Ok(t) => Result::Ok(t),
            Result::Err(e) => match spec_extract_union_go(
                cx,
                span,
                types.drop_first(),
                kind,
                n_args,
                targs,
            ) {
                Result::Ok(t) => Result::Ok(t),
                Result::Err(rest) => Result::Err(seq![e] + rest),
            },
        }
    }
}

// ------------------------------------------------------------------
// Function shapes: the scope frame a function body is typed in, and
// the collapse of collected return types.
// ------------------------------------------------------------------

/// The bindings a parameter list contributes to a function scope.
pub open spec fn param_bindings(ps: Seq<Param>) -> Seq<(Seq<char>, VarInfoV)>
    decreases ps.len(),
{
    if ps.len() == 0 {
        Seq::empty()
    } else {
        seq![
            (
                ps[0].name@,
                VarInfoV {
                    kind: crate::ast::VarDeclKind::Let,
                    ty: match ps[0].ty {
                        Option::Some(t) => Option::Some(view_ty(t)),
                        Option::None => Option::None,
                    },
                    initialized: true,
                    copied: false,
                },
            ),
        ] + param_bindings(ps.drop_first())
    }
}

/// The type bindings a type-parameter list contributes.
pub open spec fn type_param_bindings(ps: Seq<TypeParamDecl>) -> Seq<(Seq<char>, TypeV)>
    decreases ps.len(),
{
    if ps.len() == 0 {
        Seq::empty()
    } else {
        seq![
            (
                ps[0].name@,
                TypeV::Param {
                    span: ps[0].span,
                    name: ps[0].name@,
                    constraint: crate::ty::view_opt_ty(ps[0].constraint),
                    default: crate::ty::view_opt_ty(ps[0].default),
                },
            ),
        ] + type_param_bindings(ps.drop_first())
    }
}

/// The scope frame a function body is visited in: its parameters
/// bound, its type parameters registered, and the function's own name
/// bound to a type query on itself for recursion.
pub open spec fn fn_frame(name: Option<Seq<char>>, span: Span, func: FnData) -> FrameV {
    FrameV {
        kind: ScopeKind::Fn,
        vars: (match name {
            Option::Some(n) => seq![
                (
                    n,
                    VarInfoV {
                        kind: crate::ast::VarDeclKind::Var,
                        ty: Option::Some(TypeV::Query { span, name: n }),
                        initialized: true,
                        copied: false,
                    },
                ),
            ],
            Option::None => Seq::empty(),
        }) + param_bindings(func.params@),
        types: type_param_bindings(func.type_params@),
        facts: Seq::empty(),
        this_ty: Option::None,
    }
}

/// The inferred return type from the collected return types (§4.5):
/// none means `undefined`, one is itself, several form their union.
pub open spec fn collapse_returns(span: Span, ts: Seq<TypeV>) -> TypeV {
    if ts.len() == 0 {
        kw(span, KeywordKind::Undefined)
    } else if ts.len() == 1 {
        ts[0]
    } else {
        union_of_v(span, ts)
    }
}

// ------------------------------------------------------------------
// Expression typing (§4.2): the total map from expressions to types.
// ------------------------------------------------------------------

/// The type of an expression in context `cx`.
pub open spec fn spec_type_of(cx: CxV, e: Expr) -> Result<TypeV, ErrorV>
    decreases e, 0nat, 0nat,
{
    match e {
        Expr::This { span } => match find_this_v(cx.scopes, Seq::empty()) {
            Option::Some(t) => Result::Ok(t),
            Option::None => Result::Err(ErrorV::UndefinedSymbol { span }),
        },
        Expr::Ident { span, name } => if name@ == "undefined"@ {
            Result::Ok(kw(span, KeywordKind::Undefined))
        } else {
            spec_ident_type(cx, span, name@)
        },
        Expr::Lit { span, lit } => Result::Ok(TypeV::Lit { span, lit: lit@ }),
        Expr::NullLit { span } => Result::Ok(kw(span, KeywordKind::Null)),
        Expr::RegexLit { span } => Result::Ok(
            TypeV::Ref {
                span,
                name: "RegExp"@,
                member: Option::None,
                type_args: Seq::empty(),
            },
        ),
        Expr::TplLit { span } => Result::Ok(kw(span, KeywordKind::Str)),
        Expr::Array { span, elems } => match spec_array_types(cx, elems@, span) {
            Result::Err(err) => Result::Err(err),
            Result::Ok(ts) => Result::Ok(
                TypeV::Array {
                    span,
                    elem: Box::new(
                        if ts.len() == 0 {
                            kw(span, KeywordKind::Any)
                        } else {
                            union_of_v(span, ts)
                        },
                    ),
                },
            ),
        },
        Expr::Object { span, props } => match spec_object_elems(cx, props@, span) {
            Result::Err(err) => Result::Err(err),
            Result::Ok(ms) => Result::Ok(TypeV::TypeLit { span, members: ms }),
        },
        Expr::Paren { expr, .. } => spec_type_of(cx, *expr),
        Expr::Unary { span, op, arg } => match op {
            UnaryOp::Not => match spec_type_of(cx, *arg) {
                Result::Ok(t) => Result::Ok(negate_v(t)),
                Result::Err(err) => Result::Err(err),
            },
            UnaryOp::TypeOf => Result::Ok(kw(span, KeywordKind::Str)),
            UnaryOp::Void => Result::Ok(kw(span, KeywordKind::Undefined)),
            UnaryOp::Minus => Result::Ok(kw(span, KeywordKind::Number)),
            UnaryOp::Plus => Result::Ok(kw(span, KeywordKind::Number)),
        },
        Expr::Update { span, .. } => Result::Ok(kw(span, KeywordKind::Number)),
        Expr::Bin { span, op, right, .. } => match op {
            BinOp::Or => spec_type_of(cx, *right),
            BinOp::And => spec_type_of(cx, *right),
            BinOp::Sub => Result::Ok(kw(span, KeywordKind::Number)),
            BinOp::Mul => Result::Ok(kw(span, KeywordKind::Number)),
            BinOp::Div => Result::Ok(kw(span, KeywordKind::Number)),
            BinOp::Mod => Result::Ok(kw(span, KeywordKind::Number)),
            BinOp::Add => Result::Ok(kw(span, KeywordKind::Any)),
            _ => Result::Ok(kw(span, KeywordKind::Boolean)),
        },
        Expr::Cond { span, cons, alt, .. } => match spec_type_of(cx, *cons) {
            Result::Err(err) => Result::Err(err),
            Result::Ok(ct) => match spec_type_of(cx, *alt) {
                Result::Err(err) => Result::Err(err),
                Result::Ok(at) => if same_ty_no_names(ct, at) {
                    Result::Ok(ct)
                } else {
                    Result::Ok(union_of_v(span, seq![ct, at]))
                },
            },
        },
        Expr::Call { span, callee, args, type_args } => match callee {
            Callee::Expr(ce) => spec_extract_call(
                cx,
                span,
                *ce,
                ExtractKind::Call,
                args@.len(),
                crate::ty::view_tys(type_args@),
            ),
            Callee::SuperCallee { .. } => Result::Ok(kw(span, KeywordKind::Any)),
        },
        Expr::New { span, callee, args, type_args } => spec_extract_call(
            cx,
            span,
            *callee,
            ExtractKind::New,
            args@.len(),
            crate::ty::view_tys(type_args@),
        ),
        Expr::SeqExpr { span, exprs } => if exprs@.len() == 0 {
            Result::Ok(kw(span, KeywordKind::Any))
        } else {
            spec_type_of(cx, exprs@.last())
        },
        Expr::Member { span, obj, prop, computed } => match spec_type_of(cx, *obj) {
            Result::Err(err) => Result::Err(err),
            Result::Ok(ot) => match prop_name_of(*prop) {
                Option::Some(name) => spec_access_property(cx, span, ot, name),
                Option::None => Result::Err(ErrorV::Unsupported { span }),
            },
        },
        Expr::Assign { right, .. } => spec_type_of(cx, *right),
        Expr::ArrowFn { span, func, expr_body } => {
            let cx2 = CxV { scopes: cx.scopes.push(fn_frame(Option::None, span, func)), ..cx };
            let eb = (match expr_body {
                Option::Some(e) => Option::Some(spec_type_of(cx2, *e)),
                Option::None => Option::None,
            });
            spec_fn_type_of(cx, span, Option::None, func, eb)
        },
        Expr::FnExpr { span, name, func } => spec_fn_type_of(
            cx,
            span,
            match name {
                Option::Some(n) => Option::Some(n@),
                Option::None => Option::None,
            },
            func,
            Option::None,
        ),
        Expr::ClassExpr { span, name, class } => Result::Ok(
            spec_class_type(
                span,
                match name {
                    Option::Some(n) => Option::Some(n@),
                    Option::None => Option::None,
                },
                class.body@,
            ),
        ),
        Expr::TsAs { span, expr, to } => match spec_type_of(cx, *expr) {
            Result::Err(err) => Result::Err(err),
            Result::Ok(st) => {
                let tt = view_ty(to);
                if assignable(st, tt) || assignable(tt, st) {
                    Result::Ok(tt)
                } else {
                    Result::Err(
                        ErrorV::NotAssignable {
                            span,
                            source: span_of_v(st),
                            target: span_of_v(tt),
                        },
                    )
                }
            },
        },
        Expr::TsNonNull { expr, .. } => match spec_type_of(cx, *expr) {
            Result::Err(err) => Result::Err(err),
            Result::Ok(t) => Result::Ok(remove_falsy_v(t)),
        },
        Expr::YieldExpr { span } => Result::Ok(kw(span, KeywordKind::Any)),
        Expr::AwaitExpr { span, .. } => Result::Ok(kw(span, KeywordKind::Any)),
        Expr::MetaProp { span } => Result::Ok(kw(span, KeywordKind::Any)),
    }
}

/// The element types of an array literal, widened, in order; a hole
/// contributes `undefined`; a spread is rejected.
pub open spec fn spec_array_types(cx: CxV, elems: Seq<ArrayElem>, span: Span) -> Result<
    Seq<TypeV>,
    ErrorV,
>
    decreases elems, 0nat, 0nat,
{
    if elems.len() == 0 {
        Result::Ok(Seq::empty())
    } else {
        let head = (match elems[0] {
            ArrayElem::Item(e) => match spec_type_of(cx, e) {
                Result::Ok(t) => Result::Ok(widen_v(t)),
                Result::Err(err) => Result::Err(err),
            },
            ArrayElem::Hole => Result::Ok(kw(span, KeywordKind::Undefined)),
            ArrayElem::Spread(..) => Result::Err(ErrorV::Unsupported { span }),
        });
        match head {
            Result::Err(err) => Result::Err(err),
            Result::Ok(t0) => match spec_array_types(cx, elems.drop_first(), span) {
                Result::Err(err) => Result::Err(err),
                Result::Ok(rest) => Result::Ok(seq![t0] + rest),
            },
        }
    }
}

/// The member list of an object literal: one property signature per
/// plain property, carrying its value's type (a shorthand property
/// carries none); a spread is rejected.
pub open spec fn spec_object_elems(cx: CxV, props: Seq<ObjectProp>, span: Span) -> Result<
    Seq<TypeElementV>,
    ErrorV,
>
    decreases props, 1nat, 0nat,
{
    if props.len() == 0 {
        Result::Ok(Seq::empty())
    } else {
        match props[0] {
            ObjectProp::Prop { span: pspan, key, value } => {
                let vt = (match value {
                    Option::Some(v) => match spec_type_of(cx, *v) {
                        Result::Ok(t) => Result::Ok(Option::Some(Box::new(t))),
                        Result::Err(e) => Result::Err(e),
                    },
                    Option::None => Result::Ok(Option::None),
                });
                match vt {
                    Result::Err(e) => Result::Err(e),
                    Result::Ok(tyo) => match spec_object_elems(cx, props.drop_first(), span) {
                        Result::Err(err) => Result::Err(err),
                        Result::Ok(rest) => Result::Ok(
                            seq![
                                TypeElementV::Property {
                                    span: pspan,
                                    key: key@,
                                    optional: false,
                                    readonly: false,
                                    ty: tyo,
                                },
                            ] + rest,
                        ),
                    },
                }
            },
            ObjectProp::Spread { span: pspan } => Result::Err(ErrorV::Unsupported { span: pspan }),
        }
    }
}

/// Call and construct resolution on a callee expression (§4.4).
pub open spec fn spec_extract_call(
    cx: CxV,
    span: Span,
    callee: Expr,
    kind: ExtractKind,
    n_args: nat,
    targs: Seq<TypeV>,
) -> Result<TypeV, ErrorV>
    decreases callee, 1nat, 0nat,
{
    match callee {
        Expr::Ident { span: ispan, name } => if name@ == "require"@ {
            Result::Err(ErrorV::UndefinedSymbol { span: ispan })
        } else {
            match spec_type_of(cx, callee) {
                Result::Err(err) => Result::Err(err),
                Result::Ok(t) => spec_extract(cx, span, t, kind, n_args, targs),
            }
        },
        Expr::Member { span: mspan, obj, prop, computed } => match spec_type_of(cx, *obj) {
            Result::Err(err) => Result::Err(err),
            Result::Ok(ot) => if (ot matches TypeV::Function { .. }) && kind
                == ExtractKind::Call {
                Result::Ok(*ot->Function_ret)
            } else {
                match prop_name_of(*prop) {
                    Option::None => Result::Err(ErrorV::Unsupported { span }),
                    Option::Some(name) => match spec_member_host(cx, span, ot) {
                        Result::Err(err) => Result::Err(err),
                        Result::Ok(host) => if host matches TypeV::Keyword {
                            kind: KeywordKind::Any,
                            ..
                        } {
                            Result::Ok(kw(span, KeywordKind::Any))
                        } else {
                            match members_of(host) {
                                Option::Some(ms) => if kind == ExtractKind::Call {
                                    let cands = methods_named(ms, name);
                                    if cands.len() == 0 {
                                        Result::Err(no_sig_err(kind, span))
                                    } else if cands.len() == 1 {
                                        Result::Ok(sig_ret_or_any(cands[0], span))
                                    } else {
                                        match first_with_arity(cands, n_args) {
                                            Option::Some(c) => Result::Ok(
                                                sig_ret_or_any(c, span),
                                            ),
                                            Option::None => Result::Err(no_sig_err(kind, span)),
                                        }
                                    }
                                } else {
                                    Result::Err(no_sig_err(kind, span))
                                },
                                Option::None => Result::Err(no_sig_err(kind, span)),
                            }
                        },
                    },
                }
            },
        },
        _ => match spec_type_of(cx, callee) {
            Result::Err(err) => Result::Err(err),
            Result::Ok(t) => spec_extract(cx, span, t, kind, n_args, targs),
        },
    }
}

/// The type of a function or arrow expression (§4.5): parameters and
/// type parameters bound in a fresh function scope, the declared
/// return type expanded, returns collected from the body, and each
/// collected return checked against the declaration. A bodyless
/// function with no annotation has an `any` return; an arrow whose
/// expression body fails with an undefined symbol types as `any`.
pub open spec fn spec_fn_type_of(
    cx: CxV,
    span: Span,
    name: Option<Seq<char>>,
    func: FnData,
    expr_body_ty: Option<Result<TypeV, ErrorV>>,
) -> Result<TypeV, ErrorV>
    decreases func, 2nat, 0nat,
{
    let cx2 = CxV { scopes: cx.scopes.push(fn_frame(name, span, func)), ..cx };
    let declared = (match func.return_type {
        Option::Some(t) => match spec_fix_type(cx2, span, view_ty(t), false) {
            Result::Ok(d) => Result::Ok(Option::Some(d)),
            Result::Err(err) => Result::Err(err),
        },
        Option::None => Result::Ok(Option::None),
    });
    if (expr_body_ty matches Option::Some(Result::Err(ErrorV::UndefinedSymbol { .. }))) {
        Result::Ok(kw(span, KeywordKind::Any))
    } else {
        match declared {
            Result::Err(err) => Result::Err(err),
            Result::Ok(decl) => {
                let inferred = (match func.body {
                    Option::Some(stmts) => spec_returns_of_stmts(cx2, stmts@, span),
                    Option::None => match expr_body_ty {
                        Option::Some(Result::Ok(t)) => Result::Ok(seq![t]),
                        Option::Some(Result::Err(err)) => Result::Err(err),
                        Option::None => Result::Ok(Seq::empty()),
                    },
                });
                match inferred {
                    Result::Err(err) => Result::Err(err),
                    Result::Ok(rets) => {
                        let ret = (match decl {
                            Option::Some(d) => d,
                            Option::None => if func.body is None && expr_body_ty is None {
                                kw(span, KeywordKind::Any)
                            } else {
                                collapse_returns(span, rets)
                            },
                        });
                        if (decl matches Option::Some(d)) && !rets_all_assignable(
                            rets,
                            decl->0,
                        ) {
                            Result::Err(
                                ErrorV::NotAssignable {
                                    span,
                                    source: span,
                                    target: span_of_v(decl->0),
                                },
                            )
                        } else {
                            Result::Ok(
                                TypeV::Function {
                                    span,
                                    params: view_ast_params(func.params@),
                                    type_params: crate::ty::view_type_params(func.type_params@),
                                    ret: Box::new(ret),
                                },
                            )
                        }
                    },
                }
            },
        }
    }
}

/// Is every collected return type assignable to the declared one?
pub open spec fn rets_all_assignable(rets: Seq<TypeV>, decl: TypeV) -> bool {
    forall|i: int| 0 <= i < rets.len() ==> assignable(#[trigger] rets[i], decl)
}

/// The types of the `return` arguments a statement list contributes,
/// in order; nested function bodies do not contribute.
pub open spec fn spec_returns_of_stmts(cx: CxV, stmts: Seq<Stmt>, span: Span) -> Result<
    Seq<TypeV>,
    ErrorV,
>
    decreases stmts, 3nat, 0nat,
{
    if stmts.len() == 0 {
        Result::Ok(Seq::empty())
    } else {
        match spec_returns_of_stmt(cx, stmts[0], span) {
            Result::Err(err) => Result::Err(err),
            Result::Ok(head) => match spec_returns_of_stmts(cx, stmts.drop_first(), span) {
                Result::Err(err) => Result::Err(err),
                Result::Ok(rest) => Result::Ok(head + rest),
            },
        }
    }
}

/// The types of the `return` arguments one statement contributes.
pub open spec fn spec_returns_of_stmt(cx: CxV, s: Stmt, span: Span) -> Result<
    Seq<TypeV>,
    ErrorV,
>
    decreases s, 4nat, 0nat,
{
    match s {
        Stmt::Return { arg: Option::Some(e), .. } => match spec_type_of(cx, e) {
            Result::Ok(t) => Result::Ok(seq![t]),
            Result::Err(err) => Result::Err(err),
        },
        Stmt::Return { arg: Option::None, span: rspan } => Result::Ok(
            seq![kw(rspan, KeywordKind::Undefined)],
        ),
        Stmt::Block { stmts, .. } => spec_returns_of_stmts(cx, stmts@, span),
        Stmt::If { cons, alt, .. } => match spec_returns_of_stmt(cx, *cons, span) {
            Result::Err(err) => Result::Err(err),
            Result::Ok(a) => match alt {
                Option::Some(s2) => match spec_returns_of_stmt(cx, *s2, span) {
                    Result::Err(err) => Result::Err(err),
                    Result::Ok(b) => Result::Ok(a + b),
                },
                Option::None => Result::Ok(a),
            },
        },
        _ => Result::Ok(Seq::empty()),
    }
}

// ------------------------------------------------------------------
// The executable analyzer functions.
// ------------------------------------------------------------------

use crate::scope::{add_type, add_var, find_fact, find_this, find_type, find_var, lookup_ty,
    pop_scope, push_scope, Cx, ScopeFrame, VarInfo};
use crate::ty::{dup_lit, dup_opt_ty, dup_string, dup_ty, span_of, union_of, widen, LitValue};

/// Does the string hold exactly this name?
pub fn name_is(s: &String, lit: &str) -> (r: bool)
    ensures
        r == (s@ == lit@),
{
    *s == lit.to_owned()
}

/// The type of an identifier (§4.2).
pub fn ident_type(cx: &Cx, span: Span, name: &String) -> (r: Result<Type, Error>)
    ensures
        res_v(r) == spec_ident_type(cx@, span, name@),
{
    match find_fact(&cx.scopes, name) {
        Option::Some(t) => Result::Ok(t),
        Option::None => match find_var(&cx.scopes, name) {
            Option::Some(vi) => match vi.ty {
                Option::Some(t) => Result::Ok(t),
                Option::None => Result::Ok(Type::Keyword { span, kind: KeywordKind::Any }),
            },
            Option::None => match find_type(&cx.scopes, name) {
                Option::Some(t) => Result::Ok(t),
                Option::None => match lookup_ty(&cx.imports, name) {
                    Option::Some(t) => Result::Ok(t),
                    Option::None => match lookup_ty(&cx.libs, name) {
                        Option::Some(t) => Result::Ok(t),
                        Option::None => Result::Err(Error::UndefinedSymbol { span }),
                    },
                },
            },
        },
    }
}

/// Finds the first property signature named `name`, from index `i`.
fn find_property_from(ms: &Vec<crate::ty::TypeElement>, name: &String, i: usize) -> (r: Result<
    Option<Type>,
    bool,
>)
    requires
        i <= ms@.len(),
    ensures
        (match find_property(view_elems(ms@).skip(i as int), name@) {
            Option::Some(Option::Some(t)) => r matches Result::Ok(Option::Some(rt)) && rt@ == *t,
            Option::Some(Option::None) => r == Result::<Option<Type>, bool>::Ok(
                Option::<Type>::None,
            ),
            Option::None => r == Result::<Option<Type>, bool>::Err(false),
        }),
    decreases ms@.len() - i,
{
    proof {
        crate::ty::lemma_view_elems(ms@);
    }
    if i == ms.len() {
        proof {
            assert(view_elems(ms@).skip(i as int) =~= Seq::<TypeElementV>::empty());
        }
        return Result::Err(false);
    }
    proof {
        assert(view_elems(ms@).skip(i as int)[0] == view_elems(ms@)[i as int]);
        assert(view_elems(ms@).skip(i as int).drop_first() =~= view_elems(ms@).skip(i + 1));
    }
    match &ms[i] {
        crate::ty::TypeElement::Property { key, ty, .. } => {
            let matches_name = match key {
                PropKey::Ident { name: n, .. } => *n == *name,
                PropKey::StrKey { value, .. } => *value == *name,
                PropKey::NumKey { .. } => false,
            };
            if matches_name {
                match ty {
                    Option::Some(b) => Result::Ok(Option::Some(dup_ty(b))),
                    Option::None => Result::Ok(Option::None),
                }
            } else {
                find_property_from(ms, name, i + 1)
            }
        },
        _ => find_property_from(ms, name, i + 1),
    }
}

/// Member access on an object type (§4.3).
pub fn access_property(cx: &Cx, span: Span, obj: &Type, name: &String) -> (r: Result<
    Type,
    Error,
>)
    ensures
        res_v(r) == spec_access_property(cx@, span, obj@, name@),
    decreases access_rank(obj@),
{
    proof {
        broadcast use crate::ty::lemma_view_keeps_tag;

    }
    match obj {
        Type::Lit { span: lspan, lit } => {
            let kind = match lit {
                LitValue::Bool(..) => KeywordKind::Boolean,
                LitValue::Num(..) => KeywordKind::Number,
                LitValue::Str(..) => KeywordKind::Str,
            };
            let w = Type::Keyword { span: *lspan, kind };
            access_property(cx, span, &w, name)
        },
        Type::Enum { name: ename, .. } => Result::Ok(
            Type::EnumVariant {
                span,
                enum_name: dup_string(ename),
                name: dup_string(name),
            },
        ),
        Type::EnumVariant { enum_name, name: vname, .. } => match find_type(
            &cx.scopes,
            enum_name,
        ) {
            Option::Some(Type::Enum { members, .. }) => {
                proof {
                    assert(crate::ty::view_enum_members(members@).skip(0)
                        =~= crate::ty::view_enum_members(members@));
                }
                match enum_index(&members, vname, 0) {
                    Option::Some(i) => {
                        let lit = match &members[i].init {
                            Option::Some(l) => dup_lit(l),
                            Option::None => LitValue::Num(i as i64),
                        };
                        let lt = Type::Lit { span, lit };
                        proof {
                            assert(lt@ == (TypeV::Lit {
                                span,
                                lit: enum_member_lit(
                                    crate::ty::view_enum_members(members@),
                                    i as int,
                                    span,
                                ),
                            }));
                        }
                        access_property(cx, span, &lt, name)
                    },
                    Option::None => Result::Err(Error::UndefinedSymbol { span }),
                }
            },
            Option::Some(other) => {
                proof {
                    assert(!(other@ is Enum)) by {
                        match &other {
                            Type::Enum { .. } => {
                                assert(false);
                            },
                            _ => {
                                assert(crate::ty::exec_tag_of(other) != 11);
                            },
                        }
                    }
                }
                Result::Err(Error::UndefinedSymbol { span })
            },
            Option::None => Result::Err(Error::UndefinedSymbol { span }),
        },
        Type::Keyword { kind: KeywordKind::Any, .. } => Result::Ok(
            Type::Keyword { span, kind: KeywordKind::Any },
        ),
        Type::Keyword { kind, .. } => {
            let wname = match kind {
                KeywordKind::Number => Option::Some(String::from_str("Number")),
                KeywordKind::Str => Option::Some(String::from_str("String")),
                KeywordKind::Boolean => Option::Some(String::from_str("Boolean")),
                KeywordKind::Symbol => Option::Some(String::from_str("Symbol")),
                _ => Option::None,
            };
            match wname {
                Option::Some(wn) => match lookup_ty(&cx.libs, &wn) {
                    Option::Some(w) => match members_ref(&w) {
                        Option::Some(ms) => match find_property_from(ms, name, 0) {
                            Result::Ok(Option::Some(t)) => {
                                proof {
                                    assert(view_elems(ms@).skip(0) =~= view_elems(ms@));
                                }
                                Result::Ok(t)
                            },
                            Result::Ok(Option::None) => {
                                proof {
                                    assert(view_elems(ms@).skip(0) =~= view_elems(ms@));
                                }
                                Result::Ok(Type::Keyword { span, kind: KeywordKind::Any })
                            },
                            Result::Err(..) => {
                                proof {
                                    assert(view_elems(ms@).skip(0) =~= view_elems(ms@));
                                }
                                Result::Err(Error::UndefinedSymbol { span })
                            },
                        },
                        Option::None => Result::Err(Error::UndefinedSymbol { span }),
                    },
                    Option::None => Result::Err(Error::UndefinedSymbol { span }),
                },
                Option::None => Result::Err(Error::UndefinedSymbol { span }),
            }
        },
        _ => match members_ref(obj) {
            Option::Some(ms) => match find_property_from(ms, name, 0) {
                Result::Ok(Option::Some(t)) => {
                    proof {
                        assert(view_elems(ms@).skip(0) =~= view_elems(ms@));
                    }
                    Result::Ok(t)
                },
                Result::Ok(Option::None) => {
                    proof {
                        assert(view_elems(ms@).skip(0) =~= view_elems(ms@));
                    }
                    Result::Ok(Type::Keyword { span, kind: KeywordKind::Any })
                },
                Result::Err(..) => {
                    proof {
                        assert(view_elems(ms@).skip(0) =~= view_elems(ms@));
                    }
                    Result::Err(Error::UndefinedSymbol { span })
                },
            },
            Option::None => Result::Err(Error::Unsupported { span }),
        },
    }
}

/// The member list of a structural object type.
fn members_ref<'a>(t: &'a Type) -> (r: Option<&'a Vec<crate::ty::TypeElement>>)
    ensures
        (r is Some) == (members_of(t@) is Some),
        r matches Option::Some(v) ==> members_of(t@) == Option::Some(view_elems(v@)),
{
    proof {
        broadcast use crate::ty::lemma_view_keeps_tag;

    }
    match t {
        Type::TypeLit { members, .. } => Option::Some(members),
        Type::Class { body, .. } => Option::Some(body),
        Type::Interface { body, .. } => Option::Some(body),
        _ => {
            proof {
                let tag = crate::ty::exec_tag_of(*t);
                assert(tag != 8 && tag != 9 && tag != 10);
            }
            Option::None
        },
    }
}

/// Is a string-initialized member present from index `i` on?
fn enum_has_str_from(ms: &Vec<crate::ty::EnumMember>, i: usize) -> (r: bool)
    requires
        i <= ms@.len(),
    ensures
        r == exists|j: int|
            i <= j < ms@.len() && is_str_init(
                #[trigger] crate::ty::view_enum_members(ms@)[j],
            ),
    decreases ms@.len() - i,
{
    let ghost mv = crate::ty::view_enum_members(ms@);
    if i == ms.len() {
        return false;
    }
    proof {
        assert(mv[i as int] == ms@[i as int]@);
    }
    match &ms[i].init {
        Option::Some(LitValue::Str(..)) => true,
        _ => enum_has_str_from(ms, i + 1),
    }
}

/// The type whose members a method call searches (§4.4).
pub fn member_host(cx: &Cx, span: Span, obj: &Type) -> (r: Result<Type, Error>)
    ensures
        res_v(r) == spec_member_host(cx@, span, obj@),
{
    proof {
        broadcast use crate::ty::lemma_view_keeps_tag;

    }
    let projected: Result<Type, Error> = match obj {
        Type::EnumVariant { enum_name, name: vname, .. } => match find_type(
            &cx.scopes,
            enum_name,
        ) {
            Option::Some(Type::Enum { members, .. }) => {
                proof {
                    assert(crate::ty::view_enum_members(members@).skip(0)
                        =~= crate::ty::view_enum_members(members@));
                }
                match enum_index(&members, vname, 0) {
                    Option::Some(i) => {
                        let lit = match &members[i].init {
                            Option::Some(l) => dup_lit(l),
                            Option::None => LitValue::Num(i as i64),
                        };
                        Result::Ok(Type::Lit { span, lit })
                    },
                    Option::None => Result::Err(Error::UndefinedSymbol { span }),
                }
            },
            Option::Some(other) => {
                proof {
                    match &other {
                        Type::Enum { .. } => {
                            assert(false);
                        },
                        _ => {
                            assert(crate::ty::exec_tag_of(other) != 11);
                        },
                    }
                }
                Result::Err(Error::UndefinedSymbol { span })
            },
            Option::None => Result::Err(Error::UndefinedSymbol { span }),
        },
        Type::Enum { members, .. } => {
            let kind = if enum_has_str_from(&members, 0) {
                KeywordKind::Str
            } else {
                KeywordKind::Number
            };
            Result::Ok(Type::Keyword { span, kind })
        },
        other => Result::Ok(dup_ty(other)),
    };
    match projected {
        Result::Err(e) => Result::Err(e),
        Result::Ok(p) => {
            let w = widen(p);
            match &w {
                Type::Keyword { kind: KeywordKind::Any, .. } => Result::Ok(w),
                Type::Keyword { kind, .. } => {
                    let wname = match kind {
                        KeywordKind::Number => Option::Some(String::from_str("Number")),
                        KeywordKind::Str => Option::Some(String::from_str("String")),
                        KeywordKind::Boolean => Option::Some(String::from_str("Boolean")),
                        KeywordKind::Symbol => Option::Some(String::from_str("Symbol")),
                        _ => Option::None,
                    };
                    match wname {
                        Option::Some(wn) => match lookup_ty(&cx.libs, &wn) {
                            Option::Some(wt) => Result::Ok(wt),
                            Option::None => Result::Err(Error::UndefinedSymbol { span }),
                        },
                        Option::None => Result::Ok(w),
                    }
                },
                _ => Result::Ok(w),
            }
        },
    }
}

/// The number of required parameters from index `i` on.
fn required_from(ps: &Vec<crate::ty::FnParam>, i: usize) -> (r: usize)
    requires
        i <= ps@.len(),
    ensures
        r == required_count(view_params(ps@).skip(i as int)),
        r <= ps@.len() - i,
    decreases ps@.len() - i,
{
    proof {
        crate::ty::lemma_view_params(ps@);
    }
    if i == ps.len() {
        proof {
            assert(view_params(ps@).skip(i as int) =~= Seq::<FnParamV>::empty());
        }
        return 0;
    }
    proof {
        assert(view_params(ps@).skip(i as int)[0] == view_params(ps@)[i as int]);
        assert(view_params(ps@).skip(i as int).drop_first() =~= view_params(ps@).skip(i + 1));
    }
    let rest = required_from(ps, i + 1);
    if ps[i].optional {
        rest
    } else {
        rest + 1
    }
}

/// The substitution map instantiation builds, from indices `i` and
/// `j` on.
fn mk_param_map(
    tps: &Vec<TypeParamDecl>,
    targs: &Vec<Type>,
    i: usize,
    j: usize,
) -> (r: Vec<(String, Type)>)
    requires
        i <= tps@.len(),
        j <= targs@.len(),
    ensures
        crate::subst::map_v(r@) == spec_param_map(
            crate::ty::view_type_params(tps@).skip(i as int),
            view_tys(targs@).skip(j as int),
        ),
    decreases tps@.len() - i,
{
    proof {
        crate::ty::lemma_view_type_params(tps@);
        crate::ty::lemma_view_tys(targs@);
    }
    if i == tps.len() {
        let out: Vec<(String, Type)> = Vec::new();
        proof {
            assert(crate::ty::view_type_params(tps@).skip(i as int)
                =~= Seq::<crate::ty::TypeParamDeclV>::empty());
            assert(crate::subst::map_v(out@) =~= Seq::<(Seq<char>, TypeV)>::empty());
        }
        return out;
    }
    proof {
        assert(crate::ty::view_type_params(tps@).skip(i as int)[0] == crate::ty::view_type_params(
            tps@,
        )[i as int]);
        assert(crate::ty::view_type_params(tps@).skip(i as int).drop_first()
            =~= crate::ty::view_type_params(tps@).skip(i + 1));
    }
    if j < targs.len() {
        proof {
            assert(view_tys(targs@).skip(j as int)[0] == view_tys(targs@)[j as int]);
            assert(view_tys(targs@).skip(j as int).drop_first() =~= view_tys(targs@).skip(j + 1));
        }
        let rest = mk_param_map(tps, targs, i + 1, j + 1);
        let h = (dup_string(&tps[i].name), dup_ty(&targs[j]));
        let ghost restv = rest@;
        let mut out = rest;
        out.insert(0, h);
        proof {
            assert(out@.drop_first() =~= restv);
            assert(crate::subst::map_v(out@) =~= seq![
                (tps@[i as int].name@, view_tys(targs@)[j as int]),
            ] + crate::subst::map_v(restv));
        }
        out
    } else {
        proof {
            assert(view_tys(targs@).skip(j as int) =~= Seq::<TypeV>::empty());
        }
        let rest = mk_param_map(tps, targs, i + 1, j);
        match &tps[i].default {
            Option::Some(d) => {
                let h = (dup_string(&tps[i].name), dup_ty(d));
                let ghost restv = rest@;
                let mut out = rest;
                out.insert(0, h);
                proof {
                    assert(out@.drop_first() =~= restv);
                    assert(crate::subst::map_v(out@) =~= seq![
                        (tps@[i as int].name@, view_ty(*tps@[i as int].default->0)),
                    ] + crate::subst::map_v(restv));
                }
                out
            },
            Option::None => {
                proof {
                    assert(crate::subst::map_v(rest@) =~= spec_param_map(
                        crate::ty::view_type_params(tps@).skip(i as int),
                        view_tys(targs@).skip(j as int),
                    ));
                }
                rest
            },
        }
    }
}

/// Instantiation (§4.4): checks the argument count against the
/// formals and returns the formal return type with its type
/// parameters substituted by the actuals.
pub fn try_instantiate(
    span: Span,
    callee_span: Span,
    ret: Type,
    params: &Vec<crate::ty::FnParam>,
    type_params: &Vec<TypeParamDecl>,
    targs: &Vec<Type>,
    n_args: usize,
) -> (r: Result<Type, Error>)
    ensures
        res_v(r) == spec_try_instantiate(
            span,
            callee_span,
            ret@,
            view_params(params@),
            crate::ty::view_type_params(type_params@),
            view_tys(targs@),
            n_args as nat,
        ),
{
    proof {
        crate::ty::lemma_view_params(params@);
        assert(view_params(params@).skip(0) =~= view_params(params@));
    }
    let min = required_from(params, 0);
    if min <= n_args && n_args <= params.len() {
        proof {
            assert(crate::ty::view_type_params(type_params@).skip(0)
                =~= crate::ty::view_type_params(type_params@));
            assert(view_tys(targs@).skip(0) =~= view_tys(targs@));
        }
        let m = mk_param_map(type_params, targs, 0, 0);
        Result::Ok(crate::subst::subst_ty_exec(&m, &ret))
    } else {
        Result::Err(
            Error::WrongParams {
                span,
                callee: callee_span,
                min,
                max: params.len(),
                actual: n_args,
            },
        )
    }
}

/// The first matching call or construct signature from index `i` on.
fn search_signatures_from(
    ms: &Vec<crate::ty::TypeElement>,
    kind: ExtractKind,
    span: Span,
    callee_span: Span,
    n_args: usize,
    targs: &Vec<Type>,
    i: usize,
) -> (r: Option<Type>)
    requires
        i <= ms@.len(),
    ensures
        (match spec_search_signatures(
            view_elems(ms@).skip(i as int),
            kind,
            span,
            callee_span,
            n_args as nat,
            view_tys(targs@),
        ) {
            Option::Some(t) => r matches Option::Some(rt) && rt@ == t,
            Option::None => r is None,
        }),
    decreases ms@.len() - i,
{
    proof {
        crate::ty::lemma_view_elems(ms@);
    }
    if i == ms.len() {
        proof {
            assert(view_elems(ms@).skip(i as int) =~= Seq::<TypeElementV>::empty());
        }
        return Option::None;
    }
    proof {
        assert(view_elems(ms@).skip(i as int)[0] == view_elems(ms@)[i as int]);
        assert(view_elems(ms@).skip(i as int).drop_first() =~= view_elems(ms@).skip(i + 1));
    }
    match &ms[i] {
        crate::ty::TypeElement::CallSig { params, type_params, ret, .. } => {
            if matches!(kind, ExtractKind::Call) {
                let rt = match ret {
                    Option::Some(b) => dup_ty(b),
                    Option::None => Type::Keyword { span, kind: KeywordKind::Any },
                };
                match try_instantiate(span, callee_span, rt, params, type_params, targs, n_args) {
                    Result::Ok(t) => {
                        return Option::Some(t);
                    },
                    Result::Err(..) => {},
                }
            }
        },
        crate::ty::TypeElement::ConstructSig { params, type_params, ret, .. } => {
            if matches!(kind, ExtractKind::New) {
                let rt = match ret {
                    Option::Some(b) => dup_ty(b),
                    Option::None => Type::Keyword { span, kind: KeywordKind::Any },
                };
                match try_instantiate(span, callee_span, rt, params, type_params, targs, n_args) {
                    Result::Ok(t) => {
                        return Option::Some(t);
                    },
                    Result::Err(..) => {},
                }
            }
        },
        _ => {},
    }
    search_signatures_from(ms, kind, span, callee_span, n_args, targs, i + 1)
}

/// Call/construct extraction on a callee type (§4.4 step 3).
pub fn extract(
    cx: &Cx,
    span: Span,
    ty: &Type,
    kind: ExtractKind,
    n_args: usize,
    targs: &Vec<Type>,
) -> (r: Result<Type, Error>)
    ensures
        res_v(r) == spec_extract(cx@, span, ty@, kind, n_args as nat, view_tys(targs@)),
    decreases ty_size(ty@), 0nat,
{
    proof {
        broadcast use crate::ty::lemma_view_keeps_tag;

    }
    let no_sig: Error = if matches!(kind, ExtractKind::Call) {
        Error::NoCallSignature { span }
    } else {
        Error::NoNewSignature { span }
    };
    match ty {
        Type::Keyword { kind: KeywordKind::Any, .. } => Result::Ok(
            Type::Keyword { span, kind: KeywordKind::Any },
        ),
        Type::Function { params, type_params, ret, .. } => {
            if matches!(kind, ExtractKind::Call) {
                let cspan = span_of(ty);
                try_instantiate(span, cspan, dup_ty(ret), params, type_params, targs, n_args)
            } else {
                Result::Err(no_sig)
            }
        },
        Type::Constructor { params, type_params, ret, .. } => {
            if matches!(kind, ExtractKind::New) {
                let cspan = span_of(ty);
                try_instantiate(span, cspan, dup_ty(ret), params, type_params, targs, n_args)
            } else {
                Result::Err(no_sig)
            }
        },
        Type::Class { .. } => {
            if matches!(kind, ExtractKind::New) {
                Result::Ok(dup_ty(ty))
            } else {
                Result::Err(no_sig)
            }
        },
        Type::Union { types, .. } => {
            proof {
                crate::assign::lemma_union_members_smaller(ty@);
                crate::ty::lemma_view_tys(types@);
                assert(view_tys(types@).skip(0) =~= view_tys(types@));
            }
            match extract_union_from(cx, span, types, kind, n_args, targs, 0) {
                Result::Ok(t) => Result::Ok(t),
                Result::Err(errs) => Result::Err(Error::UnionError { span, errors: errs }),
            }
        },
        Type::Interface { body, .. } => {
            proof {
                assert(view_elems(body@).skip(0) =~= view_elems(body@));
            }
            let cspan = span_of(ty);
            match search_signatures_from(body, kind, span, cspan, n_args, targs, 0) {
                Option::Some(t) => Result::Ok(t),
                Option::None => Result::Err(no_sig),
            }
        },
        Type::TypeLit { members, .. } => {
            proof {
                assert(view_elems(members@).skip(0) =~= view_elems(members@));
            }
            let cspan = span_of(ty);
            match search_signatures_from(members, kind, span, cspan, n_args, targs, 0) {
                Option::Some(t) => Result::Ok(t),
                Option::None => Result::Err(no_sig),
            }
        },
        _ => Result::Err(no_sig),
    }
}

/// Extraction over the members of a union from index `i` on.
fn extract_union_from(
    cx: &Cx,
    span: Span,
    types: &Vec<Type>,
    kind: ExtractKind,
    n_args: usize,
    targs: &Vec<Type>,
    i: usize,
) -> (r: Result<Type, Vec<Error>>)
    requires
        i <= types@.len(),
    ensures
        (match spec_extract_union_go(
            cx@,
            span,
            view_tys(types@).skip(i as int),
            kind,
            n_args as nat,
            view_tys(targs@),
        ) {
            Result::Ok(t) => r matches Result::Ok(rt) && rt@ == t,
            Result::Err(es) => r matches Result::Err(re) && crate::errors::view_errs(re@) == es,
        }),
    decreases tys_size_local(view_tys(types@).skip(i as int)), 1nat,
{
    proof {
        crate::ty::lemma_view_tys(types@);
    }
    if i == types.len() {
        proof {
            assert(view_tys(types@).skip(i as int) =~= Seq::<TypeV>::empty());
            assert(crate::errors::view_errs(Seq::<Error>::empty()) == Seq::<ErrorV>::empty());
        }
        return Result::Err(Vec::new());
    }
    proof {
        assert(view_tys(types@).skip(i as int)[0] == view_tys(types@)[i as int]);
        assert(view_tys(types@).skip(i as int).drop_first() =~= view_tys(types@).skip(i + 1));
        lemma_tys_size_mem(view_tys(types@).skip(i as int), 0);
        lemma_tys_size_tail(view_tys(types@).skip(i as int));
    }
    match extract(cx, span, &types[i], kind, n_args, targs) {
        Result::Ok(t) => Result::Ok(t),
        Result::Err(e) => match extract_union_from(cx, span, types, kind, n_args, targs, i + 1) {
            Result::Ok(t) => Result::Ok(t),
            Result::Err(rest) => {
                let mut out: Vec<Error> = Vec::new();
                let ghost ev = e@;
                let ghost ee = e;
                out.push(e);
                let mut rest2 = rest;
                let ghost rseq = rest2@;
                let ghost restv = crate::errors::view_errs(rest2@);
                out.append(&mut rest2);
                proof {
                    crate::errors::lemma_view_errs(out@);
                    crate::errors::lemma_view_errs(rseq);
                    assert(out@.len() == 1 + rseq.len());
                    assert forall|j: int| 0 <= j < out@.len() implies crate::errors::view_errs(
                        out@,
                    )[j] == (seq![ev] + restv)[j] by {
                        if j == 0 {
                            assert(out@[0] == ee);
                        } else {
                            assert(out@[j] == rseq[j - 1]);
                            assert(crate::errors::view_errs(rseq)[j - 1] == crate::errors::view_err(
                                rseq[j - 1],
                            ));
                        }
                    }
                    assert(crate::errors::view_errs(out@) =~= seq![ev] + restv);
                }
                Result::Err(out)
            },
        },
    }
}

/// One head-rewriting step of expansion (§4.1).
fn fix_head(cx: &Cx, span: Span, t: Type, strict: bool) -> (r: Result<Type, Error>)
    ensures
        res_v(r) == spec_fix_head(cx@, span, t@, strict),
{
    proof {
        broadcast use crate::ty::lemma_view_keeps_tag;

    }
    match &t {
        Type::Ref { name, member: Option::None, type_args, .. } => {
            proof {
                crate::ty::lemma_view_tys(type_args@);
            }
            match lookup_ty(&cx.libs, name) {
                Option::Some(t2) => Result::Ok(t2),
                Option::None => match find_type(&cx.scopes, name) {
                    Option::Some(found) => match &found {
                        Type::Enum { .. } => if type_args.len() > 0 {
                            Result::Err(Error::Unsupported { span })
                        } else {
                            Result::Ok(found)
                        },
                        Type::Interface { .. } => Result::Ok(found),
                        Type::Class { .. } => Result::Ok(found),
                        _ => {
                            proof {
                                let tag = crate::ty::exec_tag_of(found);
                                assert(tag != 11 && tag != 10 && tag != 9);
                            }
                            Result::Ok(t)
                        },
                    },
                    Option::None => if strict {
                        Result::Err(Error::UndefinedSymbol { span })
                    } else {
                        Result::Ok(t)
                    },
                },
            }
        },
        Type::Ref { name, member: Option::Some(m), .. } => match find_type(&cx.scopes, name) {
            Option::Some(Type::Enum { .. }) => Result::Ok(
                Type::EnumVariant { span, enum_name: dup_string(name), name: dup_string(m) },
            ),
            Option::Some(other) => {
                proof {
                    match &other {
                        Type::Enum { .. } => {
                            assert(false);
                        },
                        _ => {
                            assert(crate::ty::exec_tag_of(other) != 11);
                        },
                    }
                }
                Result::Ok(t)
            },
            Option::None => if strict {
                Result::Err(Error::UndefinedSymbol { span })
            } else {
                Result::Ok(t)
            },
        },
        _ => {
            proof {
                match &t {
                    Type::Keyword { .. } => {},
                    Type::Lit { .. } => {},
                    Type::Array { .. } => {},
                    Type::Tuple { .. } => {},
                    Type::Union { .. } => {},
                    Type::Intersection { .. } => {},
                    Type::Function { .. } => {},
                    Type::Constructor { .. } => {},
                    Type::TypeLit { .. } => {},
                    Type::Class { .. } => {},
                    Type::Interface { .. } => {},
                    Type::Enum { .. } => {},
                    Type::EnumVariant { .. } => {},
                    Type::Param { .. } => {},
                    Type::Alias { .. } => {},
                    Type::This { .. } => {},
                    Type::Query { .. } => {},
                    _ => {},
                }
            }
            Result::Ok(t)
        },
    }
}

/// Shallow type expansion (§4.1).
pub fn fix_type(cx: &Cx, span: Span, t: &Type, strict: bool) -> (r: Result<Type, Error>)
    ensures
        res_v(r) == spec_fix_type(cx@, span, t@, strict),
    decreases ty_size(t@), 0nat,
{
    proof {
        broadcast use crate::ty::lemma_view_keeps_tag;

    }
    match t {
        Type::Ref { .. } => fix_head(cx, span, dup_ty(t), strict),
        Type::Query { span: qspan, name } => match ident_type(cx, *qspan, name) {
            Result::Ok(t2) => fix_head(cx, span, t2, strict),
            Result::Err(e) => Result::Err(e),
        },
        Type::Union { span: uspan, types } => {
            proof {
                crate::assign::lemma_union_members_smaller(t@);
                crate::ty::lemma_view_tys(types@);
                assert(view_tys(types@).skip(0) =~= view_tys(types@));
            }
            match fix_types_from(cx, span, types, strict, 0) {
                Result::Ok(ts) => Result::Ok(Type::Union { span: *uspan, types: ts }),
                Result::Err(e) => Result::Err(e),
            }
        },
        Type::Intersection { span: ispan, types } => {
            proof {
                crate::assign::lemma_inter_members_smaller(t@);
                crate::ty::lemma_view_tys(types@);
                assert(view_tys(types@).skip(0) =~= view_tys(types@));
            }
            match fix_types_from(cx, span, types, strict, 0) {
                Result::Ok(ts) => Result::Ok(Type::Intersection { span: *ispan, types: ts }),
                Result::Err(e) => Result::Err(e),
            }
        },
        _ => {
            proof {
                match t {
                    Type::Keyword { .. } => {},
                    Type::Lit { .. } => {},
                    Type::Array { .. } => {},
                    Type::Tuple { .. } => {},
                    Type::Function { .. } => {},
                    Type::Constructor { .. } => {},
                    Type::TypeLit { .. } => {},
                    Type::Class { .. } => {},
                    Type::Interface { .. } => {},
                    Type::Enum { .. } => {},
                    Type::EnumVariant { .. } => {},
                    Type::Param { .. } => {},
                    Type::Alias { .. } => {},
                    Type::This { .. } => {},
                    _ => {},
                }
            }
            Result::Ok(dup_ty(t))
        },
    }
}

/// Expands the members of a union or intersection from index `i` on.
fn fix_types_from(cx: &Cx, span: Span, ts: &Vec<Type>, strict: bool, i: usize) -> (r: Result<
    Vec<Type>,
    Error,
>)
    requires
        i <= ts@.len(),
    ensures
        (match spec_fix_types(cx@, span, view_tys(ts@).skip(i as int), strict) {
            Result::Ok(rs) => r matches Result::Ok(v) && view_tys(v@) == rs,
            Result::Err(e) => r matches Result::Err(re) && re@ == e,
        }),
    decreases tys_size_local(view_tys(ts@).skip(i as int)), 1nat,
{
    proof {
        crate::ty::lemma_view_tys(ts@);
    }
    if i == ts.len() {
        let out: Vec<Type> = Vec::new();
        proof {
            assert(view_tys(ts@).skip(i as int) =~= Seq::<TypeV>::empty());
            assert(view_tys(out@) =~= Seq::<TypeV>::empty());
        }
        return Result::Ok(out);
    }
    proof {
        assert(view_tys(ts@).skip(i as int)[0] == view_tys(ts@)[i as int]);
        assert(view_tys(ts@).skip(i as int).drop_first() =~= view_tys(ts@).skip(i + 1));
        lemma_tys_size_mem(view_tys(ts@).skip(i as int), 0);
        lemma_tys_size_tail(view_tys(ts@).skip(i as int));
    }
    match fix_type(cx, span, &ts[i], strict) {
        Result::Err(e) => Result::Err(e),
        Result::Ok(t0) => match fix_types_from(cx, span, ts, strict, i + 1) {
            Result::Err(e) => Result::Err(e),
            Result::Ok(rest) => {
                let ghost t0v = t0@;
                let ghost restv = rest@;
                let mut out = rest;
                out.insert(0, t0);
                proof {
                    assert(out@ =~= seq![out@[0]] + restv);
                    assert(out@[0]@ == t0v);
                    assert(out@.drop_first() =~= restv);
                    assert(view_tys(out@) =~= seq![t0v] + view_tys(restv));
                }
                Result::Ok(out)
            },
        },
    }
}

/// Is the type the `null` or `undefined` keyword?
fn is_nullish_exec(t: &Type) -> (r: bool)
    ensures
        r == is_nullish(t@),
{
    proof {
        broadcast use crate::ty::lemma_view_keeps_tag;

    }
    match t {
        Type::Keyword { kind: KeywordKind::Null, .. } => true,
        Type::Keyword { kind: KeywordKind::Undefined, .. } => true,
        Type::Keyword { .. } => false,
        _ => {
            proof {
                assert(crate::ty::exec_tag_of(*t) != 0);
            }
            false
        },
    }
}

/// The non-nullish members from index `i` on.
fn filter_nullish_from(ts: &Vec<Type>, i: usize) -> (r: Vec<Type>)
    requires
        i <= ts@.len(),
    ensures
        view_tys(r@) == filter_nullish(view_tys(ts@).skip(i as int)),
    decreases ts@.len() - i,
{
    proof {
        crate::ty::lemma_view_tys(ts@);
    }
    if i == ts.len() {
        let out: Vec<Type> = Vec::new();
        proof {
            assert(view_tys(ts@).skip(i as int) =~= Seq::<TypeV>::empty());
            assert(view_tys(out@) =~= Seq::<TypeV>::empty());
        }
        return out;
    }
    proof {
        assert(view_tys(ts@).skip(i as int)[0] == view_tys(ts@)[i as int]);
        assert(view_tys(ts@).skip(i as int).drop_first() =~= view_tys(ts@).skip(i + 1));
    }
    let rest = filter_nullish_from(ts, i + 1);
    if is_nullish_exec(&ts[i]) {
        proof {
            assert(view_tys(rest@) =~= filter_nullish(view_tys(ts@).skip(i as int)));
        }
        rest
    } else {
        let ghost restv = rest@;
        let t0 = dup_ty(&ts[i]);
        let ghost t0v = t0@;
        let mut out = rest;
        out.insert(0, t0);
        proof {
            assert(out@[0]@ == t0v);
            assert(out@.drop_first() =~= restv);
            assert(view_tys(out@) =~= seq![t0v] + view_tys(restv));
        }
        out
    }
}

/// The type of `x!`.
pub fn remove_falsy(t: Type) -> (r: Type)
    ensures
        r@ == remove_falsy_v(t@),
{
    proof {
        broadcast use crate::ty::lemma_view_keeps_tag;

    }
    match t {
        Type::Union { span, types } => {
            proof {
                crate::ty::lemma_view_tys(types@);
                assert(view_tys(types@).skip(0) =~= view_tys(types@));
            }
            let kept = filter_nullish_from(&types, 0);
            union_of(span, kept)
        },
        Type::Keyword { span, kind: KeywordKind::Null } => Type::Keyword {
            span,
            kind: KeywordKind::Never,
        },
        Type::Keyword { span, kind: KeywordKind::Undefined } => Type::Keyword {
            span,
            kind: KeywordKind::Never,
        },
        other => {
            proof {
                match &other {
                    Type::Union { .. } => {
                        assert(false);
                    },
                    Type::Keyword { .. } => {},
                    _ => {
                        assert(crate::ty::exec_tag_of(other) != 4);
                    },
                }
            }
            other
        },
    }
}

// ------------------------------------------------------------------
// Conversions from declared shapes.
// ------------------------------------------------------------------

/// One declared parameter as a function-type parameter.
fn ast_param(p: &Param) -> (r: crate::ty::FnParam)
    ensures
        crate::ty::view_param(r) == view_ast_param(*p),
{
    crate::ty::FnParam {
        span: p.span,
        name: dup_string(&p.name),
        optional: p.optional,
        ty: match &p.ty {
            Option::Some(t) => Option::Some(Box::new(dup_ty(t))),
            Option::None => Option::None,
        },
    }
}

/// The declared parameters as function-type parameters.
pub fn ast_params(ps: &Vec<Param>) -> (r: Vec<crate::ty::FnParam>)
    ensures
        view_params(r@) == view_ast_params(ps@),
{
    proof {
        assert(ps@.skip(0) =~= ps@);
    }
    ast_params_from(ps, 0)
}

/// The declared parameters as function-type parameters, from `i` on.
fn ast_params_from(ps: &Vec<Param>, i: usize) -> (r: Vec<crate::ty::FnParam>)
    requires
        i <= ps@.len(),
    ensures
        view_params(r@) == view_ast_params(ps@.skip(i as int)),
    decreases ps@.len() - i,
{
    if i == ps.len() {
        let out: Vec<crate::ty::FnParam> = Vec::new();
        proof {
            assert(ps@.skip(i as int) =~= Seq::<Param>::empty());
            assert(view_params(out@) =~= Seq::<FnParamV>::empty());
        }
        return out;
    }
    proof {
        assert(ps@.skip(i as int)[0] == ps@[i as int]);
        assert(ps@.skip(i as int).drop_first() =~= ps@.skip(i + 1));
    }
    let rest = ast_params_from(ps, i + 1);
    let ghost restv = rest@;
    let p0 = ast_param(&ps[i]);
    let ghost p0v = crate::ty::view_param(p0);
    let mut out = rest;
    out.insert(0, p0);
    proof {
        assert(crate::ty::view_param(out@[0]) == p0v);
        assert(out@.drop_first() =~= restv);
        assert(view_params(out@) =~= seq![p0v] + view_params(restv));
    }
    out
}

/// The constructor parameters as function-type parameters, from `i` on.
fn ctor_params_from(ps: &Vec<crate::ast::CtorParam>, i: usize) -> (r: Vec<crate::ty::FnParam>)
    requires
        i <= ps@.len(),
    ensures
        view_params(r@) == ctor_params_v(ps@.skip(i as int)),
    decreases ps@.len() - i,
{
    if i == ps.len() {
        let out: Vec<crate::ty::FnParam> = Vec::new();
        proof {
            assert(ps@.skip(i as int) =~= Seq::<crate::ast::CtorParam>::empty());
            assert(view_params(out@) =~= Seq::<FnParamV>::empty());
        }
        return out;
    }
    proof {
        assert(ps@.skip(i as int)[0] == ps@[i as int]);
        assert(ps@.skip(i as int).drop_first() =~= ps@.skip(i + 1));
    }
    let rest = ctor_params_from(ps, i + 1);
    let ghost restv = rest@;
    let p0 = ast_param(&ps[i].param);
    let ghost p0v = crate::ty::view_param(p0);
    let mut out = rest;
    out.insert(0, p0);
    proof {
        assert(crate::ty::view_param(out@[0]) == p0v);
        assert(out@.drop_first() =~= restv);
        assert(view_params(out@) =~= seq![p0v] + view_params(restv));
    }
    out
}

/// The class body as a member list, from `i` on.
fn class_elems_from(body: &Vec<ClassMember>, i: usize) -> (r: Vec<crate::ty::TypeElement>)
    requires
        i <= body@.len(),
    ensures
        view_elems(r@) == class_elems(body@.skip(i as int)),
    decreases body@.len() - i,
{
    if i == body.len() {
        let out: Vec<crate::ty::TypeElement> = Vec::new();
        proof {
            assert(body@.skip(i as int) =~= Seq::<ClassMember>::empty());
            assert(view_elems(out@) =~= Seq::<TypeElementV>::empty());
        }
        return out;
    }
    proof {
        assert(body@.skip(i as int)[0] == body@[i as int]);
        assert(body@.skip(i as int).drop_first() =~= body@.skip(i + 1));
    }
    let rest = class_elems_from(body, i + 1);
    let head: Option<crate::ty::TypeElement> = match &body[i] {
        ClassMember::Method { span, key: MemberKey::Plain(k), func, .. } => {
            proof {
                assert(func.params@.skip(0) =~= func.params@);
            }
            Option::Some(
                crate::ty::TypeElement::Method {
                    span: *span,
                    key: crate::ty::dup_key(k),
                    params: ast_params_from(&func.params, 0),
                    type_params: crate::ty::dup_type_params(&func.type_params),
                    ret: match &func.return_type {
                        Option::Some(t) => Option::Some(Box::new(dup_ty(t))),
                        Option::None => Option::None,
                    },
                },
            )
        },
        ClassMember::Prop { span, key: MemberKey::Plain(k), ty, .. } => Option::Some(
            crate::ty::TypeElement::Property {
                span: *span,
                key: crate::ty::dup_key(k),
                optional: false,
                readonly: false,
                ty: match ty {
                    Option::Some(t) => Option::Some(Box::new(dup_ty(t))),
                    Option::None => Option::None,
                },
            },
        ),
        ClassMember::Constructor { span, params, .. } => {
            proof {
                assert(params@.skip(0) =~= params@);
            }
            Option::Some(
                crate::ty::TypeElement::ConstructSig {
                    span: *span,
                    params: ctor_params_from(params, 0),
                    type_params: Vec::new(),
                    ret: Option::None,
                },
            )
        },
        _ => Option::None,
    };
    match head {
        Option::Some(h) => {
            let ghost restv = rest@;
            let ghost hv = crate::ty::view_elem(h);
            let mut out = rest;
            out.insert(0, h);
            proof {
                assert(crate::ty::view_type_params(Seq::<crate::ty::TypeParamDecl>::empty())
                    =~= Seq::<crate::ty::TypeParamDeclV>::empty());
                assert(crate::ty::view_elem(out@[0]) == hv);
                assert(out@.drop_first() =~= restv);
                assert(view_elems(out@) =~= seq![hv] + view_elems(restv));
            }
            out
        },
        Option::None => {
            proof {
                assert(view_elems(rest@) =~= class_elems(body@.skip(i as int)));
            }
            rest
        },
    }
}

/// The structural type of a class.
pub fn class_type(span: Span, name: Option<String>, body: &Vec<ClassMember>) -> (r: Type)
    ensures
        r@ == spec_class_type(
            span,
            match name {
                Option::Some(n) => Option::Some(n@),
                Option::None => Option::None,
            },
            body@,
        ),
{
    proof {
        assert(body@.skip(0) =~= body@);
    }
    let elems = class_elems_from(body, 0);
    Type::Class { span, name, body: elems }
}

// ------------------------------------------------------------------
// The function scope frame.
// ------------------------------------------------------------------

proof fn lemma_param_bindings_snoc(ps: Seq<Param>, x: Param)
    ensures
        param_bindings(ps.push(x)) == param_bindings(ps) + param_bindings(seq![x]),
    decreases ps.len(),
{
    assert(seq![x][0] == x);
    assert(seq![x].drop_first() =~= Seq::<Param>::empty());
    if ps.len() == 0 {
        assert(ps.push(x)[0] == x);
        assert(ps.push(x).drop_first() =~= Seq::<Param>::empty());
        assert(param_bindings(ps.push(x)) =~= param_bindings(ps) + param_bindings(seq![x]));
    } else {
        lemma_param_bindings_snoc(ps.drop_first(), x);
        assert(ps.push(x)[0] == ps[0]);
        assert(ps.push(x).drop_first() =~= ps.drop_first().push(x));
        assert(param_bindings(ps.push(x)) =~= param_bindings(ps) + param_bindings(seq![x]));
    }
}

proof fn lemma_type_param_bindings_snoc(ps: Seq<TypeParamDecl>, x: TypeParamDecl)
    ensures
        type_param_bindings(ps.push(x)) == type_param_bindings(ps) + type_param_bindings(
            seq![x],
        ),
    decreases ps.len(),
{
    assert(seq![x][0] == x);
    assert(seq![x].drop_first() =~= Seq::<TypeParamDecl>::empty());
    if ps.len() == 0 {
        assert(ps.push(x)[0] == x);
        assert(ps.push(x).drop_first() =~= Seq::<TypeParamDecl>::empty());
        assert(type_param_bindings(ps.push(x)) =~= type_param_bindings(ps)
            + type_param_bindings(seq![x]));
    } else {
        lemma_type_param_bindings_snoc(ps.drop_first(), x);
        assert(ps.push(x)[0] == ps[0]);
        assert(ps.push(x).drop_first() =~= ps.drop_first().push(x));
        assert(type_param_bindings(ps.push(x)) =~= type_param_bindings(ps)
            + type_param_bindings(seq![x]));
    }
}

/// Pushes the scope frame a function body is visited in (§4.5).
pub fn push_fn_frame(cx: &mut Cx, name: Option<&String>, span: Span, func: &FnData)
    ensures
        final(cx)@.scopes == old(cx)@.scopes.push(
            fn_frame(
                match name {
                    Option::Some(n) => Option::Some(n@),
                    Option::None => Option::None,
                },
                span,
                *func,
            ),
        ),
        final(cx)@.imports == old(cx)@.imports,
        final(cx)@.libs == old(cx)@.libs,
{
    let ghost namev: Option<Seq<char>> = (match name {
        Option::Some(n) => Option::Some(n@),
        Option::None => Option::None,
    });
    let ghost target = fn_frame(namev, span, *func);
    let ghost scopes0 = crate::scope::view_frames(cx.scopes@);
    push_scope(&mut cx.scopes, ScopeKind::Fn);
    let ghost base: Seq<(Seq<char>, crate::scope::VarInfoV)> = (match namev {
        Option::Some(n) => seq![
            (
                n,
                crate::scope::VarInfoV {
                    kind: crate::ast::VarDeclKind::Var,
                    ty: Option::Some(TypeV::Query { span, name: n }),
                    initialized: true,
                    copied: false,
                },
            ),
        ],
        Option::None => Seq::empty(),
    });
    proof {
        assert(crate::scope::view_frames(cx.scopes@).len() == scopes0.len() + 1);
        assert(cx.scopes@.len() == scopes0.len() + 1);
        assert(param_bindings(func.params@.take(0)) =~= Seq::<(
            Seq<char>,
            crate::scope::VarInfoV,
        )>::empty());
    }
    match name {
        Option::Some(n) => {
            let qt = Type::Query { span, name: dup_string(n) };
            add_var(
                &mut cx.scopes,
                dup_string(n),
                VarInfo {
                    kind: crate::ast::VarDeclKind::Var,
                    ty: Option::Some(qt),
                    initialized: true,
                    copied: false,
                },
            );
            proof {
                let frames = crate::scope::view_frames(cx.scopes@);
                assert(frames.last().vars =~= base + param_bindings(func.params@.take(0)));
                assert(frames.take(scopes0.len() as int) =~= scopes0);
            }
        },
        Option::None => {
            proof {
                let frames = crate::scope::view_frames(cx.scopes@);
                assert(frames.last().vars =~= base + param_bindings(func.params@.take(0)));
                assert(frames.take(scopes0.len() as int) =~= scopes0);
            }
        },
    }
    let n_params = func.params.len();
    let mut i: usize = 0;
    while i < n_params
        invariant
            n_params == func.params@.len(),
            i <= n_params,
            crate::scope::view_frames(cx.scopes@).len() == scopes0.len() + 1,
            crate::scope::view_frames(cx.scopes@).take(scopes0.len() as int) == scopes0,
            crate::scope::view_frames(cx.scopes@).last() == (crate::scope::FrameV {
                kind: ScopeKind::Fn,
                vars: base + param_bindings(func.params@.take(i as int)),
                types: Seq::empty(),
                facts: Seq::empty(),
                this_ty: Option::None,
            }),
            cx@.imports == old(cx)@.imports,
            cx@.libs == old(cx)@.libs,
        decreases n_params - i,
    {
        let p = &func.params[i];
        let ghost x = func.params@[i as int];
        let ghost b = (
            x.name@,
            crate::scope::VarInfoV {
                kind: crate::ast::VarDeclKind::Let,
                ty: match x.ty {
                    Option::Some(t) => Option::Some(view_ty(t)),
                    Option::None => Option::None,
                },
                initialized: true,
                copied: false,
            },
        );
        proof {
            assert(cx.scopes@.len() == scopes0.len() + 1);
        }
        let ty = match &p.ty {
            Option::Some(t) => Option::Some(dup_ty(t)),
            Option::None => Option::None,
        };
        add_var(
            &mut cx.scopes,
            dup_string(&p.name),
            VarInfo { kind: crate::ast::VarDeclKind::Let, ty, initialized: true, copied: false },
        );
        proof {
            lemma_param_bindings_snoc(func.params@.take(i as int), x);
            assert(func.params@.take(i as int).push(x) =~= func.params@.take(i + 1));
            assert(seq![x][0] == x);
            assert(seq![x].drop_first() =~= Seq::<Param>::empty());
            assert(param_bindings(Seq::<Param>::empty()) == Seq::<(
                Seq<char>,
                crate::scope::VarInfoV,
            )>::empty());
            assert(param_bindings(seq![x]) =~= seq![b]);
            assert(crate::scope::view_frames(cx.scopes@).last().vars =~= base + param_bindings(
                func.params@.take(i + 1),
            ));
            assert(crate::scope::view_frames(cx.scopes@).take(scopes0.len() as int) =~= scopes0);
        }
        i += 1;
    }
    let n_tps = func.type_params.len();
    let mut k: usize = 0;
    proof {
        assert(func.params@.take(n_params as int) =~= func.params@);
        assert(crate::ty::view_type_params(func.type_params@).take(0)
            =~= Seq::<crate::ty::TypeParamDeclV>::empty());
        assert(type_param_bindings(func.type_params@.take(0)) =~= Seq::<(Seq<char>, TypeV)>::empty());
    }
    while k < n_tps
        invariant
            n_tps == func.type_params@.len(),
            k <= n_tps,
            crate::scope::view_frames(cx.scopes@).len() == scopes0.len() + 1,
            crate::scope::view_frames(cx.scopes@).take(scopes0.len() as int) == scopes0,
            crate::scope::view_frames(cx.scopes@).last() == (crate::scope::FrameV {
                kind: ScopeKind::Fn,
                vars: base + param_bindings(func.params@),
                types: type_param_bindings(func.type_params@.take(k as int)),
                facts: Seq::empty(),
                this_ty: Option::None,
            }),
            cx@.imports == old(cx)@.imports,
            cx@.libs == old(cx)@.libs,
        decreases n_tps - k,
    {
        let tp = &func.type_params[k];
        let ghost x = func.type_params@[k as int];
        let ghost b = (
            x.name@,
            TypeV::Param {
                span: x.span,
                name: x.name@,
                constraint: crate::ty::view_opt_ty(x.constraint),
                default: crate::ty::view_opt_ty(x.default),
            },
        );
        proof {
            assert(cx.scopes@.len() == scopes0.len() + 1);
        }
        let pt = Type::Param {
            span: tp.span,
            name: dup_string(&tp.name),
            constraint: dup_opt_ty(&tp.constraint),
            default: dup_opt_ty(&tp.default),
        };
        add_type(&mut cx.scopes, dup_string(&tp.name), pt);
        proof {
            lemma_type_param_bindings_snoc(func.type_params@.take(k as int), x);
            assert(func.type_params@.take(k as int).push(x) =~= func.type_params@.take(k + 1));
            assert(seq![x][0] == x);
            assert(seq![x].drop_first() =~= Seq::<TypeParamDecl>::empty());
            assert(type_param_bindings(Seq::<TypeParamDecl>::empty()) == Seq::<(
                Seq<char>,
                TypeV,
            )>::empty());
            assert(type_param_bindings(seq![x]) =~= seq![b]);
            assert(crate::scope::view_frames(cx.scopes@).last().types =~= type_param_bindings(
                func.type_params@.take(k + 1),
            ));
            assert(crate::scope::view_frames(cx.scopes@).take(scopes0.len() as int) =~= scopes0);
        }
        k += 1;
    }
    proof {
        assert(func.type_params@.take(n_tps as int) =~= func.type_params@);
        assert(crate::scope::view_frames(cx.scopes@) =~= scopes0.push(target));
    }
}

/// The ghost value of an optional typing result.
pub open spec fn opt_res_v(o: Option<Result<Type, Error>>) -> Option<Result<TypeV, ErrorV>> {
    match o {
        Option::Some(r) => Option::Some(res_v(r)),
        Option::None => Option::None,
    }
}

/// The name a non-computed member expression asks for.
fn prop_name(prop: &Expr) -> (r: Option<String>)
    ensures
        (match prop_name_of(*prop) {
            Option::Some(n) => r matches Option::Some(rs) && rs@ == n,
            Option::None => r is None,
        }),
{
    match prop {
        Expr::Ident { name, .. } => Option::Some(dup_string(name)),
        Expr::Lit { lit: LitValue::Str(s), .. } => Option::Some(dup_string(s)),
        _ => Option::None,
    }
}

/// The type of an expression (§4.2). The context is borrowed mutably
/// only to push transient function scopes; it is always restored.
#[verifier::rlimit(80)]
pub fn type_of(cx: &mut Cx, e: &Expr) -> (r: Result<Type, Error>)
    ensures
        final(cx)@ == old(cx)@,
        res_v(r) == spec_type_of(old(cx)@, *e),
    decreases *e, 0nat, 0nat,
{
    match e {
        Expr::This { span } => match find_this(&cx.scopes, ) {
            Option::Some(t) => Result::Ok(t),
            Option::None => Result::Err(Error::UndefinedSymbol { span: *span }),
        },
        Expr::Ident { span, name } => {
            if name_is(name, "undefined") {
                Result::Ok(Type::Keyword { span: *span, kind: KeywordKind::Undefined })
            } else {
                ident_type(cx, *span, name)
            }
        },
        Expr::Lit { span, lit } => Result::Ok(Type::Lit { span: *span, lit: dup_lit(lit) }),
        Expr::NullLit { span } => Result::Ok(
            Type::Keyword { span: *span, kind: KeywordKind::Null },
        ),
        Expr::RegexLit { span } => {
            let ta: Vec<Type> = Vec::new();
            proof {
                assert(view_tys(ta@) =~= Seq::<TypeV>::empty());
            }
            Result::Ok(
                Type::Ref {
                    span: *span,
                    name: String::from_str("RegExp"),
                    member: Option::None,
                    type_args: ta,
                },
            )
        },
        Expr::TplLit { span } => Result::Ok(Type::Keyword { span: *span, kind: KeywordKind::Str }),
        Expr::Array { span, elems } => {
            proof {
                assert(elems@.skip(0) =~= elems@);
            }
            match array_types_from(cx, elems, *span, 0) {
                Result::Err(err) => Result::Err(err),
                Result::Ok(ts) => {
                    let ghost tsv = view_tys(ts@);
                    proof {
                        crate::ty::lemma_view_tys(ts@);
                    }
                    let elem: Type = if ts.len() == 0 {
                        Type::Keyword { span: *span, kind: KeywordKind::Any }
                    } else {
                        union_of(*span, ts)
                    };
                    proof {
                        assert(elem@ == (if tsv.len() == 0 {
                            kw(*span, KeywordKind::Any)
                        } else {
                            union_of_v(*span, tsv)
                        }));
                    }
                    Result::Ok(Type::Array { span: *span, elem: Box::new(elem) })
                },
            }
        },
        Expr::Object { span, props } => {
            proof {
                assert(props@.skip(0) =~= props@);
            }
            match object_elems_from(cx, props, *span, 0) {
                Result::Err(err) => Result::Err(err),
                Result::Ok(ms) => Result::Ok(Type::TypeLit { span: *span, members: ms }),
            }
        },
        Expr::Paren { expr, .. } => type_of(cx, expr),
        Expr::Unary { span, op, arg } => match op {
            UnaryOp::Not => match type_of(cx, arg) {
                Result::Ok(t) => Result::Ok(crate::ty::negate(t)),
                Result::Err(err) => Result::Err(err),
            },
            UnaryOp::TypeOf => Result::Ok(Type::Keyword { span: *span, kind: KeywordKind::Str }),
            UnaryOp::Void => Result::Ok(
                Type::Keyword { span: *span, kind: KeywordKind::Undefined },
            ),
            UnaryOp::Minus => Result::Ok(
                Type::Keyword { span: *span, kind: KeywordKind::Number },
            ),
            UnaryOp::Plus => Result::Ok(Type::Keyword { span: *span, kind: KeywordKind::Number }),
        },
        Expr::Update { span, .. } => Result::Ok(
            Type::Keyword { span: *span, kind: KeywordKind::Number },
        ),
        Expr::Bin { span, op, right, .. } => match op {
            BinOp::Or => type_of(cx, right),
            BinOp::And => type_of(cx, right),
            BinOp::Sub => Result::Ok(Type::Keyword { span: *span, kind: KeywordKind::Number }),
            BinOp::Mul => Result::Ok(Type::Keyword { span: *span, kind: KeywordKind::Number }),
            BinOp::Div => Result::Ok(Type::Keyword { span: *span, kind: KeywordKind::Number }),
            BinOp::Mod => Result::Ok(Type::Keyword { span: *span, kind: KeywordKind::Number }),
            BinOp::Add => Result::Ok(Type::Keyword { span: *span, kind: KeywordKind::Any }),
            _ => Result::Ok(Type::Keyword { span: *span, kind: KeywordKind::Boolean }),
        },
        Expr::Cond { span, cons, alt, .. } => match type_of(cx, cons) {
            Result::Err(err) => Result::Err(err),
            Result::Ok(ct) => match type_of(cx, alt) {
                Result::Err(err) => Result::Err(err),
                Result::Ok(at) => {
                    if crate::ty::eq_ignore_name_and_span(&ct, &at) {
                        Result::Ok(ct)
                    } else {
                        let ghost cv = ct@;
                        let ghost av = at@;
                        let mut pair: Vec<Type> = Vec::new();
                        pair.push(ct);
                        pair.push(at);
                        proof {
                            assert(pair@[0]@ == cv);
                            assert(pair@[1]@ == av);
                            assert(pair@.drop_first() =~= seq![pair@[1]]);
                            assert(seq![pair@[1]][0] == pair@[1]);
                            assert(seq![pair@[1]].drop_first() =~= Seq::<Type>::empty());
                            assert(view_tys(Seq::<Type>::empty()) == Seq::<TypeV>::empty());
                            assert(view_tys(seq![pair@[1]]) =~= seq![av]);
                            assert(view_tys(pair@) =~= seq![cv, av]);
                        }
                        Result::Ok(union_of(*span, pair))
                    }
                },
            },
        },
        Expr::Call { span, callee, args, type_args } => match callee {
            Callee::Expr(ce) => extract_call(
                cx,
                *span,
                ce,
                ExtractKind::Call,
                args.len(),
                type_args,
            ),
            Callee::SuperCallee { .. } => Result::Ok(
                Type::Keyword { span: *span, kind: KeywordKind::Any },
            ),
        },
        Expr::New { span, callee, args, type_args } => extract_call(
            cx,
            *span,
            callee,
            ExtractKind::New,
            args.len(),
            type_args,
        ),
        Expr::SeqExpr { span, exprs } => {
            if exprs.len() == 0 {
                Result::Ok(Type::Keyword { span: *span, kind: KeywordKind::Any })
            } else {
                let n = exprs.len();
                type_of(cx, &exprs[n - 1])
            }
        },
        Expr::Member { span, obj, prop, .. } => match type_of(cx, obj) {
            Result::Err(err) => Result::Err(err),
            Result::Ok(ot) => match prop_name(prop) {
                Option::Some(name) => access_property(cx, *span, &ot, &name),
                Option::None => Result::Err(Error::Unsupported { span: *span }),
            },
        },
        Expr::Assign { right, .. } => type_of(cx, right),
        Expr::ArrowFn { span, func, expr_body } => {
            let ghost cx0 = cx@;
            push_fn_frame(cx, Option::None, *span, func);
            let eb: Option<Result<Type, Error>> = match expr_body {
                Option::Some(be) => Option::Some(type_of(cx, be)),
                Option::None => Option::None,
            };
            let r = fn_type_inner(cx, Ghost(cx0), Ghost(Option::None), *span, func, eb);
            pop_scope(&mut cx.scopes);
            proof {
                assert(crate::scope::view_frames(cx.scopes@) =~= cx0.scopes);
            }
            r
        },
        Expr::FnExpr { span, name, func } => {
            let ghost cx0 = cx@;
            let nref: Option<&String> = match name {
                Option::Some(n) => Option::Some(n),
                Option::None => Option::None,
            };
            let ghost namev: Option<Seq<char>> = (match name {
                Option::Some(n) => Option::Some(n@),
                Option::None => Option::None,
            });
            push_fn_frame(cx, nref, *span, func);
            let r = fn_type_inner(cx, Ghost(cx0), Ghost(namev), *span, func, Option::None);
            pop_scope(&mut cx.scopes);
            proof {
                assert(crate::scope::view_frames(cx.scopes@) =~= cx0.scopes);
            }
            r
        },
        Expr::ClassExpr { span, name, class } => {
            let n2 = match name {
                Option::Some(n) => Option::Some(dup_string(n)),
                Option::None => Option::None,
            };
            Result::Ok(class_type(*span, n2, &class.body))
        },
        Expr::TsAs { span, expr, to } => match type_of(cx, expr) {
            Result::Err(err) => Result::Err(err),
            Result::Ok(st) => {
                if crate::assign::is_assignable(&st, to) || crate::assign::is_assignable(to, &st) {
                    Result::Ok(dup_ty(to))
                } else {
                    let source = span_of(&st);
                    let target = span_of(to);
                    Result::Err(Error::NotAssignable { span: *span, source, target })
                }
            },
        },
        Expr::TsNonNull { expr, .. } => match type_of(cx, expr) {
            Result::Err(err) => Result::Err(err),
            Result::Ok(t) => Result::Ok(remove_falsy(t)),
        },
        Expr::YieldExpr { span } => Result::Ok(
            Type::Keyword { span: *span, kind: KeywordKind::Any },
        ),
        Expr::AwaitExpr { span, .. } => Result::Ok(
            Type::Keyword { span: *span, kind: KeywordKind::Any },
        ),
        Expr::MetaProp { span } => Result::Ok(
            Type::Keyword { span: *span, kind: KeywordKind::Any },
        ),
    }
}

/// The widened element types of an array literal, from index `i` on.
fn array_types_from(cx: &mut Cx, elems: &Vec<ArrayElem>, span: Span, i: usize) -> (r: Result<
    Vec<Type>,
    Error,
>)
    requires
        i <= elems@.len(),
    ensures
        final(cx)@ == old(cx)@,
        (match spec_array_types(old(cx)@, elems@.skip(i as int), span) {
            Result::Ok(ts) => r matches Result::Ok(v) && view_tys(v@) == ts,
            Result::Err(e) => r matches Result::Err(re) && re@ == e,
        }),
    decreases elems@.skip(i as int), 0nat, 0nat,
{
    if i == elems.len() {
        let out: Vec<Type> = Vec::new();
        proof {
            assert(elems@.skip(i as int) =~= Seq::<ArrayElem>::empty());
            assert(view_tys(out@) =~= Seq::<TypeV>::empty());
        }
        return Result::Ok(out);
    }
    proof {
        assert(elems@.skip(i as int)[0] == elems@[i as int]);
        assert(elems@.skip(i as int).drop_first() =~= elems@.skip(i + 1));
    }
    let head: Result<Type, Error> = match &elems[i] {
        ArrayElem::Item(el) => match type_of(cx, el) {
            Result::Ok(t) => Result::Ok(crate::ty::widen(t)),
            Result::Err(err) => Result::Err(err),
        },
        ArrayElem::Hole => Result::Ok(Type::Keyword { span, kind: KeywordKind::Undefined }),
        ArrayElem::Spread(..) => Result::Err(Error::Unsupported { span }),
    };
    match head {
        Result::Err(err) => Result::Err(err),
        Result::Ok(t0) => match array_types_from(cx, elems, span, i + 1) {
            Result::Err(err) => Result::Err(err),
            Result::Ok(rest) => {
                let ghost t0v = t0@;
                let ghost restv = rest@;
                let mut out = rest;
                out.insert(0, t0);
                proof {
                    assert(out@[0]@ == t0v);
                    assert(out@.drop_first() =~= restv);
                    assert(view_tys(out@) =~= seq![t0v] + view_tys(restv));
                }
                Result::Ok(out)
            },
        },
    }
}

/// The member list of an object literal, from index `i` on.
fn object_elems_from(cx: &mut Cx, props: &Vec<ObjectProp>, span: Span, i: usize) -> (r: Result<
    Vec<crate::ty::TypeElement>,
    Error,
>)
    requires
        i <= props@.len(),
    ensures
        final(cx)@ == old(cx)@,
        (match spec_object_elems(old(cx)@, props@.skip(i as int), span) {
            Result::Ok(ms) => r matches Result::Ok(v) && view_elems(v@) == ms,
            Result::Err(e) => r matches Result::Err(re) && re@ == e,
        }),
    decreases props@.skip(i as int), 1nat, 0nat,
{
    if i == props.len() {
        let out: Vec<crate::ty::TypeElement> = Vec::new();
        proof {
            assert(props@.skip(i as int) =~= Seq::<ObjectProp>::empty());
            assert(view_elems(out@) =~= Seq::<TypeElementV>::empty());
        }
        return Result::Ok(out);
    }
    proof {
        assert(props@.skip(i as int)[0] == props@[i as int]);
        assert(props@.skip(i as int).drop_first() =~= props@.skip(i + 1));
    }
    match &props[i] {
        ObjectProp::Prop { span: pspan, key, value } => {
            let tyo: Option<Box<Type>> = match value {
                Option::Some(v) => match type_of(cx, v) {
                    Result::Ok(t) => Option::Some(Box::new(t)),
                    Result::Err(e) => {
                        return Result::Err(e);
                    },
                },
                Option::None => Option::None,
            };
            match object_elems_from(cx, props, span, i + 1) {
                Result::Err(err) => Result::Err(err),
                Result::Ok(rest) => {
                    let h = crate::ty::TypeElement::Property {
                        span: *pspan,
                        key: crate::ty::dup_key(key),
                        optional: false,
                        readonly: false,
                        ty: tyo,
                    };
                    let ghost hv = crate::ty::view_elem(h);
                    let ghost restv = rest@;
                    let mut out = rest;
                    out.insert(0, h);
                    proof {
                        assert(crate::ty::view_elem(out@[0]) == hv);
                        assert(out@.drop_first() =~= restv);
                        assert(view_elems(out@) =~= seq![hv] + view_elems(restv));
                    }
                    Result::Ok(out)
                },
            }
        },
        ObjectProp::Spread { span: pspan } => Result::Err(Error::Unsupported { span: *pspan }),
    }
}

/// Call and construct resolution on a callee expression (§4.4).
pub fn extract_call(
    cx: &mut Cx,
    span: Span,
    callee: &Expr,
    kind: ExtractKind,
    n_args: usize,
    targs: &Vec<Type>,
) -> (r: Result<Type, Error>)
    ensures
        final(cx)@ == old(cx)@,
        res_v(r) == spec_extract_call(
            old(cx)@,
            span,
            *callee,
            kind,
            n_args as nat,
            view_tys(targs@),
        ),
    decreases *callee, 1nat, 0nat,
{
    proof {
        broadcast use crate::ty::lemma_view_keeps_tag;

    }
    match callee {
        Expr::Ident { span: ispan, name } => {
            if name_is(name, "require") {
                Result::Err(Error::UndefinedSymbol { span: *ispan })
            } else {
                match type_of(cx, callee) {
                    Result::Err(err) => Result::Err(err),
                    Result::Ok(t) => extract(cx, span, &t, kind, n_args, targs),
                }
            }
        },
        Expr::Member { span: mspan, obj, prop, .. } => match type_of(cx, obj) {
            Result::Err(err) => Result::Err(err),
            Result::Ok(ot) => {
                let is_fn_call = match (&ot, kind) {
                    (Type::Function { .. }, ExtractKind::Call) => true,
                    _ => false,
                };
                if is_fn_call {
                    match ot {
                        Type::Function { ret, .. } => Result::Ok(*ret),
                        _ => Result::Err(Error::Unsupported { span }),
                    }
                } else {
                    proof {
                        match (&ot, kind) {
                            (Type::Function { .. }, ExtractKind::Call) => {
                                assert(false);
                            },
                            (Type::Function { .. }, ExtractKind::New) => {},
                            _ => {
                                assert(crate::ty::exec_tag_of(ot) != 6);
                            },
                        }
                    }
                    match prop_name(prop) {
                        Option::None => Result::Err(Error::Unsupported { span }),
                        Option::Some(name) => match member_host(cx, span, &ot) {
                            Result::Err(err) => Result::Err(err),
                            Result::Ok(host) => {
                                let host_is_any = match &host {
                                    Type::Keyword { kind: KeywordKind::Any, .. } => true,
                                    _ => false,
                                };
                                if host_is_any {
                                    Result::Ok(Type::Keyword { span, kind: KeywordKind::Any })
                                } else {
                                    proof {
                                        match &host {
                                            Type::Keyword { .. } => {},
                                            _ => {
                                                assert(crate::ty::exec_tag_of(host) != 0);
                                            },
                                        }
                                    }
                                    match members_ref(&host) {
                                        Option::Some(ms) => {
                                            if matches!(kind, ExtractKind::Call) {
                                                method_pick(ms, &name, span, n_args)
                                            } else {
                                                Result::Err(Error::NoNewSignature { span })
                                            }
                                        },
                                        Option::None => {
                                            if matches!(kind, ExtractKind::Call) {
                                                Result::Err(Error::NoCallSignature { span })
                                            } else {
                                                Result::Err(Error::NoNewSignature { span })
                                            }
                                        },
                                    }
                                }
                            },
                        },
                    }
                }
            },
        },
        _ => {
            proof {
                match callee {
                    Expr::This { .. } => {},
                    Expr::Lit { .. } => {},
                    Expr::NullLit { .. } => {},
                    Expr::RegexLit { .. } => {},
                    Expr::TplLit { .. } => {},
                    Expr::Array { .. } => {},
                    Expr::Object { .. } => {},
                    Expr::Paren { .. } => {},
                    Expr::Unary { .. } => {},
                    Expr::Update { .. } => {},
                    Expr::Bin { .. } => {},
                    Expr::Cond { .. } => {},
                    Expr::Call { .. } => {},
                    Expr::New { .. } => {},
                    Expr::SeqExpr { .. } => {},
                    Expr::Assign { .. } => {},
                    Expr::ArrowFn { .. } => {},
                    Expr::FnExpr { .. } => {},
                    Expr::ClassExpr { .. } => {},
                    Expr::TsAs { .. } => {},
                    Expr::TsNonNull { .. } => {},
                    Expr::YieldExpr { .. } => {},
                    Expr::AwaitExpr { .. } => {},
                    Expr::MetaProp { .. } => {},
                    _ => {},
                }
            }
            match type_of(cx, callee) {
                Result::Err(err) => Result::Err(err),
                Result::Ok(t) => extract(cx, span, &t, kind, n_args, targs),
            }
        },
    }
}

/// Method-lookup on the member list of the host type (§4.4 step 2).
fn method_pick(
    ms: &Vec<crate::ty::TypeElement>,
    name: &String,
    span: Span,
    n_args: usize,
) -> (r: Result<Type, Error>)
    ensures
        res_v(r) == ({
            let cands = methods_named(view_elems(ms@), name@);
            if cands.len() == 0 {
                Result::<TypeV, ErrorV>::Err(ErrorV::NoCallSignature { span })
            } else if cands.len() == 1 {
                Result::<TypeV, ErrorV>::Ok(sig_ret_or_any(cands[0], span))
            } else {
                match first_with_arity(cands, n_args as nat) {
                    Option::Some(c) => Result::<TypeV, ErrorV>::Ok(sig_ret_or_any(c, span)),
                    Option::None => Result::<TypeV, ErrorV>::Err(
                        ErrorV::NoCallSignature { span },
                    ),
                }
            }
        }),
{
    proof {
        assert(view_elems(ms@).skip(0) =~= view_elems(ms@));
    }
    let n_cands = count_methods_from(ms, name, 0);
    if n_cands == 0 {
        Result::Err(Error::NoCallSignature { span })
    } else if n_cands == 1 {
        match first_method_ret(ms, name, span, 0) {
            Option::Some(t) => Result::Ok(t),
            Option::None => Result::Err(Error::NoCallSignature { span }),
        }
    } else {
        match first_method_with_arity(ms, name, span, n_args, 0) {
            Option::Some(t) => Result::Ok(t),
            Option::None => Result::Err(Error::NoCallSignature { span }),
        }
    }
}

/// The number of method signatures named `name` from index `i` on.
fn count_methods_from(ms: &Vec<crate::ty::TypeElement>, name: &String, i: usize) -> (r: usize)
    requires
        i <= ms@.len(),
    ensures
        r == methods_named(view_elems(ms@).skip(i as int), name@).len(),
    decreases ms@.len() - i,
{
    proof {
        crate::ty::lemma_view_elems(ms@);
    }
    if i == ms.len() {
        proof {
            assert(view_elems(ms@).skip(i as int) =~= Seq::<TypeElementV>::empty());
        }
        return 0;
    }
    proof {
        assert(view_elems(ms@).skip(i as int)[0] == view_elems(ms@)[i as int]);
        assert(view_elems(ms@).skip(i as int).drop_first() =~= view_elems(ms@).skip(i + 1));
    }
    let rest = count_methods_from(ms, name, i + 1);
    let hit: bool = match &ms[i] {
        crate::ty::TypeElement::Method { key, .. } => match key {
            PropKey::Ident { name: n, .. } => *n == *name,
            PropKey::StrKey { value, .. } => *value == *name,
            PropKey::NumKey { .. } => false,
        },
        _ => false,
    };
    if hit {
        proof {
            assert(rest < usize::MAX) by {
                assert(methods_named(view_elems(ms@).skip(i + 1), name@).len() <= ms@.len() - i
                    - 1) by {
                    lemma_methods_named_len(view_elems(ms@).skip(i + 1), name@);
                }
                crate::ty::lemma_view_elems(ms@);
            }
        }
        rest + 1
    } else {
        rest
    }
}

proof fn lemma_methods_named_len(ms: Seq<TypeElementV>, name: Seq<char>)
    ensures
        methods_named(ms, name).len() <= ms.len(),
    decreases ms.len(),
{
    if ms.len() > 0 {
        lemma_methods_named_len(ms.drop_first(), name);
    }
}

/// The return type of the first method named `name`, from index `i`.
fn first_method_ret(
    ms: &Vec<crate::ty::TypeElement>,
    name: &String,
    span: Span,
    i: usize,
) -> (r: Option<Type>)
    requires
        i <= ms@.len(),
    ensures
        methods_named(view_elems(ms@).skip(i as int), name@).len() > 0 ==> (r
            matches Option::Some(rt) && rt@ == sig_ret_or_any(
            methods_named(view_elems(ms@).skip(i as int), name@)[0],
            span,
        )),
        methods_named(view_elems(ms@).skip(i as int), name@).len() == 0 ==> r is None,
    decreases ms@.len() - i,
{
    proof {
        crate::ty::lemma_view_elems(ms@);
    }
    if i == ms.len() {
        proof {
            assert(view_elems(ms@).skip(i as int) =~= Seq::<TypeElementV>::empty());
        }
        return Option::None;
    }
    proof {
        assert(view_elems(ms@).skip(i as int)[0] == view_elems(ms@)[i as int]);
        assert(view_elems(ms@).skip(i as int).drop_first() =~= view_elems(ms@).skip(i + 1));
    }
    match &ms[i] {
        crate::ty::TypeElement::Method { key, ret, .. } => {
            let hit = match key {
                PropKey::Ident { name: n, .. } => *n == *name,
                PropKey::StrKey { value, .. } => *value == *name,
                PropKey::NumKey { .. } => false,
            };
            if hit {
                let rt = match ret {
                    Option::Some(b) => dup_ty(b),
                    Option::None => Type::Keyword { span, kind: KeywordKind::Any },
                };
                Option::Some(rt)
            } else {
                first_method_ret(ms, name, span, i + 1)
            }
        },
        _ => first_method_ret(ms, name, span, i + 1),
    }
}

/// The return type of the first method named `name` with declared
/// arity `n_args`, from index `i`.
fn first_method_with_arity(
    ms: &Vec<crate::ty::TypeElement>,
    name: &String,
    span: Span,
    n_args: usize,
    i: usize,
) -> (r: Option<Type>)
    requires
        i <= ms@.len(),
    ensures
        (match first_with_arity(
            methods_named(view_elems(ms@).skip(i as int), name@),
            n_args as nat,
        ) {
            Option::Some(c) => r matches Option::Some(rt) && rt@ == sig_ret_or_any(c, span),
            Option::None => r is None,
        }),
    decreases ms@.len() - i,
{
    proof {
        crate::ty::lemma_view_elems(ms@);
    }
    if i == ms.len() {
        proof {
            assert(view_elems(ms@).skip(i as int) =~= Seq::<TypeElementV>::empty());
        }
        return Option::None;
    }
    proof {
        assert(view_elems(ms@).skip(i as int)[0] == view_elems(ms@)[i as int]);
        assert(view_elems(ms@).skip(i as int).drop_first() =~= view_elems(ms@).skip(i + 1));
    }
    match &ms[i] {
        crate::ty::TypeElement::Method { key, params, ret, .. } => {
            let hit = match key {
                PropKey::Ident { name: n, .. } => *n == *name,
                PropKey::StrKey { value, .. } => *value == *name,
                PropKey::NumKey { .. } => false,
            };
            if hit {
                proof {
                    crate::ty::lemma_view_params(params@);
                    assert(methods_named(view_elems(ms@).skip(i as int), name@).drop_first()
                        =~= methods_named(view_elems(ms@).skip(i + 1), name@));
                }
                if params.len() == n_args {
                    let rt = match ret {
                        Option::Some(b) => dup_ty(b),
                        Option::None => Type::Keyword { span, kind: KeywordKind::Any },
                    };
                    Option::Some(rt)
                } else {
                    first_method_with_arity(ms, name, span, n_args, i + 1)
                }
            } else {
                first_method_with_arity(ms, name, span, n_args, i + 1)
            }
        },
        _ => first_method_with_arity(ms, name, span, n_args, i + 1),
    }
}

/// The body of function typing (§4.5), run inside the pushed function
/// scope.
pub fn fn_type_inner(
    cx: &mut Cx,
    Ghost(cx0): Ghost<CxV>,
    Ghost(namev): Ghost<Option<Seq<char>>>,
    span: Span,
    func: &FnData,
    eb: Option<Result<Type, Error>>,
) -> (r: Result<Type, Error>)
    requires
        old(cx)@.scopes == cx0.scopes.push(fn_frame(namev, span, *func)),
        old(cx)@.imports == cx0.imports,
        old(cx)@.libs == cx0.libs,
    ensures
        final(cx)@ == old(cx)@,
        res_v(r) == spec_fn_type_of(cx0, span, namev, *func, opt_res_v(eb)),
    decreases *func, 2nat, 0nat,
{
    let ghost cx2 = (CxV { scopes: cx0.scopes.push(fn_frame(namev, span, *func)), ..cx0 });
    proof {
        assert(cx@ == cx2);
    }
    let eb_is_undef: bool = match &eb {
        Option::Some(Result::Err(Error::UndefinedSymbol { .. })) => true,
        _ => false,
    };
    if eb_is_undef {
        return Result::Ok(Type::Keyword { span, kind: KeywordKind::Any });
    }
    proof {
        match &eb {
            Option::Some(Result::Err(e)) => {
                broadcast use crate::errors::lemma_err_view_tag;

                match e {
                    Error::UndefinedSymbol { .. } => {
                        assert(false);
                    },
                    _ => {
                        assert(crate::errors::err_exec_tag(*e) != 0);
                    },
                }
            },
            _ => {},
        }
    }
    let no_source: bool = match (&func.body, &eb) {
        (Option::None, Option::None) => true,
        _ => false,
    };
    let declared: Option<Type> = match &func.return_type {
        Option::Some(t) => match fix_type(cx, span, t, false) {
            Result::Ok(d) => Option::Some(d),
            Result::Err(err) => {
                return Result::Err(err);
            },
        },
        Option::None => Option::None,
    };
    let rets: Vec<Type> = match &func.body {
        Option::Some(stmts) => {
            proof {
                assert(stmts@.skip(0) =~= stmts@);
            }
            match returns_of_stmts(cx, stmts, span, 0) {
                Result::Ok(ts) => ts,
                Result::Err(err) => {
                    return Result::Err(err);
                },
            }
        },
        Option::None => match eb {
            Option::Some(Result::Ok(t)) => {
                let mut v: Vec<Type> = Vec::new();
                let ghost tv = t@;
                v.push(t);
                proof {
                    assert(v@.drop_first() =~= Seq::<Type>::empty());
                    assert(view_tys(Seq::<Type>::empty()) == Seq::<TypeV>::empty());
                    assert(view_tys(v@) =~= seq![tv]);
                }
                v
            },
            Option::Some(Result::Err(err)) => {
                return Result::Err(err);
            },
            Option::None => {
                let v: Vec<Type> = Vec::new();
                proof {
                    assert(view_tys(v@) =~= Seq::<TypeV>::empty());
                }
                v
            },
        },
    };
    proof {
        crate::ty::lemma_view_tys(rets@);
    }
    match declared {
        Option::Some(d) => {
            let n = rets.len();
            let mut i: usize = 0;
            let mut all_ok: bool = true;
            while i < n
                invariant
                    n == rets@.len(),
                    i <= n,
                    cx@ == old(cx)@,
                    all_ok == (forall|j: int|
                        0 <= j < i ==> assignable(#[trigger] view_tys(rets@)[j], d@)),
                decreases n - i,
            {
                proof {
                    crate::ty::lemma_view_tys(rets@);
                }
                if !crate::assign::is_assignable(&rets[i], &d) {
                    proof {
                        assert(!assignable(view_tys(rets@)[i as int], d@));
                    }
                    all_ok = false;
                }
                i += 1;
            }
            proof {
                crate::ty::lemma_view_tys(rets@);
                let declared_s = (match &func.return_type {
                    Option::Some(t) => match spec_fix_type(cx2, span, view_ty(*t), false) {
                        Result::Ok(dd) => Result::Ok(Option::Some(dd)),
                        Result::Err(err) => Result::Err(err),
                    },
                    Option::None => Result::Ok(Option::<TypeV>::None),
                });
                assert(declared_s == Result::<Option<TypeV>, ErrorV>::Ok(Option::Some(d@)));
                let inferred_s = (match &func.body {
                    Option::Some(stmts) => spec_returns_of_stmts(cx2, stmts@, span),
                    Option::None => match opt_res_v(eb) {
                        Option::Some(Result::Ok(t)) => Result::Ok(seq![t]),
                        Option::Some(
                            Result::Err(ErrorV::UndefinedSymbol { .. }),
                        ) => Result::Ok(seq![kw(span, KeywordKind::Any)]),
                        Option::Some(Result::Err(err)) => Result::Err(err),
                        Option::None => Result::Ok(Seq::empty()),
                    },
                });
                assert(inferred_s == Result::<Seq<TypeV>, ErrorV>::Ok(view_tys(rets@)));
            }
            if !all_ok {
                proof {
                    crate::ty::lemma_view_tys(rets@);
                    assert(!rets_all_assignable(view_tys(rets@), d@));
                }
                let target = span_of(&d);
                return Result::Err(Error::NotAssignable { span, source: span, target });
            }
            proof {
                crate::ty::lemma_view_tys(rets@);
                assert(rets_all_assignable(view_tys(rets@), d@));
            }
            proof {
                assert(func.params@.skip(0) =~= func.params@);
            }
            Result::Ok(
                Type::Function {
                    span,
                    params: ast_params_from(&func.params, 0),
                    type_params: crate::ty::dup_type_params(&func.type_params),
                    ret: Box::new(d),
                },
            )
        },
        Option::None => {
            let ghost rv = view_tys(rets@);
            let ret: Type = if no_source {
                Type::Keyword { span, kind: KeywordKind::Any }
            } else if rets.len() == 0 {
                Type::Keyword { span, kind: KeywordKind::Undefined }
            } else if rets.len() == 1 {
                let mut rets2 = rets;
                match rets2.pop() {
                    Option::Some(t) => {
                        proof {
                            assert(t@ == rv[0]);
                        }
                        t
                    },
                    Option::None => Type::Keyword { span, kind: KeywordKind::Undefined },
                }
            } else {
                union_of(span, rets)
            };
            proof {
                if !no_source {
                    assert(ret@ == collapse_returns(span, rv));
                }
            }
            proof {
                assert(func.params@.skip(0) =~= func.params@);
            }
            Result::Ok(
                Type::Function {
                    span,
                    params: ast_params_from(&func.params, 0),
                    type_params: crate::ty::dup_type_params(&func.type_params),
                    ret: Box::new(ret),
                },
            )
        },
    }
}

/// The types of the `return` arguments from statement `i` on.
fn returns_of_stmts(cx: &mut Cx, stmts: &Vec<Stmt>, span: Span, i: usize) -> (r: Result<
    Vec<Type>,
    Error,
>)
    requires
        i <= stmts@.len(),
    ensures
        final(cx)@ == old(cx)@,
        (match spec_returns_of_stmts(old(cx)@, stmts@.skip(i as int), span) {
            Result::Ok(ts) => r matches Result::Ok(v) && view_tys(v@) == ts,
            Result::Err(e) => r matches Result::Err(re) && re@ == e,
        }),
    decreases stmts@.skip(i as int), 3nat, 0nat,
{
    if i == stmts.len() {
        let out: Vec<Type> = Vec::new();
        proof {
            assert(stmts@.skip(i as int) =~= Seq::<Stmt>::empty());
            assert(view_tys(out@) =~= Seq::<TypeV>::empty());
        }
        return Result::Ok(out);
    }
    proof {
        assert(stmts@.skip(i as int)[0] == stmts@[i as int]);
        assert(stmts@.skip(i as int).drop_first() =~= stmts@.skip(i + 1));
    }
    match returns_of_stmt(cx, &stmts[i], span) {
        Result::Err(err) => Result::Err(err),
        Result::Ok(head) => match returns_of_stmts(cx, stmts, span, i + 1) {
            Result::Err(err) => Result::Err(err),
            Result::Ok(rest) => {
                let ghost headv = view_tys(head@);
                let ghost restv = view_tys(rest@);
                let ghost headseq = head@;
                let ghost restseq = rest@;
                let mut out = head;
                let mut rest2 = rest;
                out.append(&mut rest2);
                proof {
                    crate::ty::lemma_view_tys(out@);
                    crate::ty::lemma_view_tys(headseq);
                    crate::ty::lemma_view_tys(restseq);
                    assert forall|j: int| 0 <= j < out@.len() implies view_tys(out@)[j] == (headv
                        + restv)[j] by {
                        if j < headseq.len() {
                            assert(out@[j] == headseq[j]);
                        } else {
                            assert(out@[j] == restseq[j - headseq.len()]);
                        }
                    }
                    assert(view_tys(out@) =~= headv + restv);
                }
                Result::Ok(out)
            },
        },
    }
}

/// The types of the `return` arguments one statement contributes.
fn returns_of_stmt(cx: &mut Cx, s: &Stmt, span: Span) -> (r: Result<Vec<Type>, Error>)
    ensures
        final(cx)@ == old(cx)@,
        (match spec_returns_of_stmt(old(cx)@, *s, span) {
            Result::Ok(ts) => r matches Result::Ok(v) && view_tys(v@) == ts,
            Result::Err(e) => r matches Result::Err(re) && re@ == e,
        }),
    decreases *s, 4nat, 0nat,
{
    match s {
        Stmt::Return { arg: Option::Some(e), .. } => match type_of(cx, e) {
            Result::Ok(t) => {
                let mut v: Vec<Type> = Vec::new();
                let ghost tv = t@;
                v.push(t);
                proof {
                    assert(v@.drop_first() =~= Seq::<Type>::empty());
                    assert(view_tys(Seq::<Type>::empty()) == Seq::<TypeV>::empty());
                    assert(view_tys(v@) =~= seq![tv]);
                }
                Result::Ok(v)
            },
            Result::Err(err) => Result::Err(err),
        },
        Stmt::Return { arg: Option::None, span: rspan } => {
            let mut v: Vec<Type> = Vec::new();
            let t = Type::Keyword { span: *rspan, kind: KeywordKind::Undefined };
            let ghost tv = t@;
            v.push(t);
            proof {
                assert(v@.drop_first() =~= Seq::<Type>::empty());
                assert(view_tys(Seq::<Type>::empty()) == Seq::<TypeV>::empty());
                assert(view_tys(v@) =~= seq![tv]);
            }
            Result::Ok(v)
        },
        Stmt::Block { stmts, .. } => {
            proof {
                assert(stmts@.skip(0) =~= stmts@);
            }
            returns_of_stmts(cx, stmts, span, 0)
        },
        Stmt::If { cons, alt, .. } => match returns_of_stmt(cx, cons, span) {
            Result::Err(err) => Result::Err(err),
            Result::Ok(a) => match alt {
                Option::Some(s2) => match returns_of_stmt(cx, s2, span) {
                    Result::Err(err) => Result::Err(err),
                    Result::Ok(b) => {
                        let ghost av = view_tys(a@);
                        let ghost bv = view_tys(b@);
                        let ghost aseq = a@;
                        let ghost bseq = b@;
                        let mut out = a;
                        let mut b2 = b;
                        out.append(&mut b2);
                        proof {
                            crate::ty::lemma_view_tys(out@);
                            crate::ty::lemma_view_tys(aseq);
                            crate::ty::lemma_view_tys(bseq);
                            assert forall|j: int| 0 <= j < out@.len() implies view_tys(out@)[j]
                                == (av + bv)[j] by {
                                if j < aseq.len() {
                                    assert(out@[j] == aseq[j]);
                                } else {
                                    assert(out@[j] == bseq[j - aseq.len()]);
                                }
                            }
                            assert(view_tys(out@) =~= av + bv);
                        }
                        Result::Ok(out)
                    },
                },
                Option::None => Result::Ok(a),
            },
        },
        _ => {
            proof {
                match s {
                    Stmt::ExprStmt { .. } => {},
                    Stmt::VarDeclStmt { .. } => {},
                    Stmt::FnDecl { .. } => {},
                    Stmt::ClassDecl { .. } => {},
                    Stmt::EnumDecl { .. } => {},
                    Stmt::InterfaceDecl { .. } => {},
                    Stmt::TypeAliasDecl { .. } => {},
                    Stmt::Empty { .. } => {},
                    _ => {},
                }
            }
            let v: Vec<Type> = Vec::new();
            proof {
                assert(view_tys(v@) =~= Seq::<TypeV>::empty());
            }
            Result::Ok(v)
        },
    }
}

/// The index of the enum member named `name`, from index `i`.
fn enum_index(ms: &Vec<crate::ty::EnumMember>, name: &String, i: usize) -> (r: Option<usize>)
    requires
        i <= ms@.len(),
    ensures
        (match enum_member_index(crate::ty::view_enum_members(ms@).skip(i as int), name@) {
            Option::Some(k) => r matches Option::Some(ri) && ri < ms@.len() && i + k == ri,
            Option::None => r is None,
        }),
    decreases ms@.len() - i,
{
    let ghost mv = crate::ty::view_enum_members(ms@);
    if i == ms.len() {
        proof {
            assert(mv.skip(i as int) =~= Seq::<EnumMemberV>::empty());
        }
        return Option::None;
    }
    proof {
        assert(mv.skip(i as int)[0] == mv[i as int]);
        assert(mv[i as int] == ms@[i as int]@);
        assert(mv.skip(i as int).drop_first() =~= mv.skip(i + 1));
    }
    if ms[i].name == *name {
        Option::Some(i)
    } else {
        enum_index(ms, name, i + 1)
    }
}

} // verus!
