//! Assignability: the subtyping-like relation deciding whether a value
//! of a source type can be used where a target type is expected.

use vstd::prelude::*;

use crate::ty::{
    eq_ignore_span, same_ty, strip_key, view_elem, view_elems, view_opt_ty, view_param,
    view_params, view_ty, view_tys, FnParam, FnParamV, KeywordKind, LitV, PropKeyV, Span, Type,
    TypeElement, TypeElementV, TypeV, lemma_view_elems, lemma_view_params, lemma_view_tys,
    keyword_of_lit,
};

verus! {

// ------------------------------------------------------------------
// A size measure on ghost types, used for termination.
// ------------------------------------------------------------------

pub open spec fn opt_ty_size(t: Option<Box<TypeV>>) -> nat
    decreases t,
{
    match t {
        Option::Some(b) => 1 + ty_size(*b),
        Option::None => 0,
    }
}

pub open spec fn param_size(p: FnParamV) -> nat
    decreases p,
{
    1 + opt_ty_size(p.ty)
}

pub open spec fn params_size(ps: Seq<FnParamV>) -> nat
    decreases ps,
{
    if ps.len() == 0 {
        0
    } else {
        1 + param_size(ps[0]) + params_size(ps.drop_first())
    }
}

pub open spec fn elem_size(e: TypeElementV) -> nat
    decreases e,
{
    match e {
        TypeElementV::Property { ty, .. } => 2 + opt_ty_size(ty),
        TypeElementV::Method { params, ret, .. } => 2 + params_size(params) + opt_ty_size(ret),
        TypeElementV::CallSig { params, ret, .. } => 2 + params_size(params) + opt_ty_size(ret),
        TypeElementV::ConstructSig { params, ret, .. } => 2 + params_size(params) + opt_ty_size(
            ret,
        ),
    }
}

pub open spec fn elems_size(es: Seq<TypeElementV>) -> nat
    decreases es,
{
    if es.len() == 0 {
        0
    } else {
        1 + elem_size(es[0]) + elems_size(es.drop_first())
    }
}

pub open spec fn ty_size(t: TypeV) -> nat
    decreases t,
{
    match t {
        TypeV::Keyword { .. } => 1,
        TypeV::Lit { .. } => 1,
        TypeV::Array { elem, .. } => 1 + ty_size(*elem),
        TypeV::Tuple { elems, .. } => 1 + tys_size(elems),
        TypeV::Union { types, .. } => 1 + tys_size(types),
        TypeV::Intersection { types, .. } => 1 + tys_size(types),
        TypeV::Function { params, ret, .. } => 1 + params_size(params) + ty_size(*ret),
        TypeV::Constructor { params, ret, .. } => 1 + params_size(params) + ty_size(*ret),
        TypeV::TypeLit { members, .. } => 1 + elems_size(members),
        TypeV::Class { body, .. } => 1 + elems_size(body),
        TypeV::Interface { body, .. } => 1 + elems_size(body),
        TypeV::Enum { .. } => 1,
        TypeV::EnumVariant { .. } => 1,
        TypeV::Param { constraint, default, .. } => 1 + opt_ty_size(constraint) + opt_ty_size(
            default,
        ),
        TypeV::Alias { ty, .. } => 1 + ty_size(*ty),
        TypeV::Ref { type_args, .. } => 1 + tys_size(type_args),
        TypeV::This { .. } => 1,
        TypeV::Query { .. } => 1,
    }
}

pub open spec fn tys_size(ts: Seq<TypeV>) -> nat
    decreases ts,
{
    if ts.len() == 0 {
        0
    } else {
        1 + ty_size(ts[0]) + tys_size(ts.drop_first())
    }
}

pub proof fn lemma_tys_size_mem(ts: Seq<TypeV>, i: int)
    requires
        0 <= i < ts.len(),
    ensures
        ty_size(ts[i]) < tys_size(ts),
    decreases ts.len(),
{
    if i > 0 {
        lemma_tys_size_mem(ts.drop_first(), i - 1);
        assert(ts.drop_first()[i - 1] == ts[i]);
    }
}

pub proof fn lemma_params_size_mem(ps: Seq<FnParamV>, i: int)
    requires
        0 <= i < ps.len(),
    ensures
        param_size(ps[i]) < params_size(ps),
    decreases ps.len(),
{
    if i > 0 {
        lemma_params_size_mem(ps.drop_first(), i - 1);
        assert(ps.drop_first()[i - 1] == ps[i]);
    }
}

pub proof fn lemma_elems_size_mem(es: Seq<TypeElementV>, i: int)
    requires
        0 <= i < es.len(),
    ensures
        elem_size(es[i]) < elems_size(es),
    decreases es.len(),
{
    if i > 0 {
        lemma_elems_size_mem(es.drop_first(), i - 1);
        assert(es.drop_first()[i - 1] == es[i]);
    }
}

// ------------------------------------------------------------------
// The relation.
// ------------------------------------------------------------------

/// The type a parameter declares, with `any` for a missing annotation.
pub open spec fn param_ty_or_any(p: FnParamV) -> TypeV {
    match p.ty {
        Option::Some(b) => *b,
        Option::None => TypeV::Keyword { span: p.span, kind: KeywordKind::Any },
    }
}

/// Is a source type assignable to a target type?
///
/// - `any` is top and bottom; `never` is bottom.
/// - A union source needs every member accepted; a union target needs
///   some member to accept. An intersection is dual.
/// - A literal is accepted by its base keyword and by the equal
///   literal.
/// - Functions are contravariant in matched parameters and covariant
///   in the return type; extra source parameters must be optional.
/// - Classes, interfaces and type literals compare structurally: the
///   target's members must each be matched in the source.
/// - An enum variant is accepted by its enum; structural equality is
///   accepted everywhere.
pub open spec fn assignable(s: TypeV, t: TypeV) -> bool
    decreases ty_size(s) + ty_size(t),
{
    if (s matches TypeV::Keyword { kind: KeywordKind::Any, .. }) || (t matches TypeV::Keyword {
        kind: KeywordKind::Any,
        ..
    }) {
        true
    } else if s matches TypeV::Keyword { kind: KeywordKind::Never, .. } {
        true
    } else if s matches TypeV::Union { types: ss, .. } {
        proof {
            lemma_union_members_smaller(s);
        }
        all_assignable_to(s->Union_types, t)
    } else if t matches TypeV::Union { types: ts, .. } {
        proof {
            lemma_union_members_smaller(t);
        }
        any_accepts(s, t->Union_types)
    } else if s matches TypeV::Intersection { types: ss, .. } {
        proof {
            lemma_inter_members_smaller(s);
        }
        any_member_assignable(s->Intersection_types, t)
    } else if t matches TypeV::Intersection { types: ts, .. } {
        proof {
            lemma_inter_members_smaller(t);
        }
        all_accept(s, t->Intersection_types)
    } else if same_ty(s, t) {
        true
    } else {
        match (s, t) {
            (TypeV::Lit { lit, .. }, TypeV::Keyword { kind, .. }) => kind == keyword_of_lit(lit),
            (
                TypeV::Array { elem: se, .. },
                TypeV::Array { elem: te, .. },
            ) => assignable(*se, *te),
            (
                TypeV::Tuple { elems: se, .. },
                TypeV::Tuple { elems: te, .. },
            ) => se.len() == te.len() && all_pairwise_assignable(se, te),
            (
                TypeV::Function { params: sp, ret: sr, .. },
                TypeV::Function { params: tp, ret: tr, .. },
            ) => fn_shape_assignable(sp, *sr, tp, *tr),
            (
                TypeV::Constructor { params: sp, ret: sr, .. },
                TypeV::Constructor { params: tp, ret: tr, .. },
            ) => fn_shape_assignable(sp, *sr, tp, *tr),
            (
                TypeV::EnumVariant { enum_name, .. },
                TypeV::Enum { name, .. },
            ) => enum_name == name,
            (s2, t2) => {
                let sm = struct_members_of(s2);
                let tm = struct_members_of(t2);
                if (sm matches Option::Some(sms)) && (tm matches Option::Some(tms)) {
                    proof {
                        lemma_struct_members_smaller(s2);
                        lemma_struct_members_smaller(t2);
                    }
                    all_target_members_matched(sm->0, tm->0)
                } else {
                    false
                }
            },
        }
    }
}

/// The member list of a structural (class, interface, type-literal)
/// type.
pub open spec fn struct_members_of(t: TypeV) -> Option<Seq<TypeElementV>> {
    match t {
        TypeV::TypeLit { members, .. } => Option::Some(members),
        TypeV::Class { body, .. } => Option::Some(body),
        TypeV::Interface { body, .. } => Option::Some(body),
        _ => Option::None,
    }
}

pub proof fn lemma_union_members_smaller(t: TypeV)
    ensures
        t matches TypeV::Union { types, .. } ==> tys_size(types) < ty_size(t),
{
}

pub proof fn lemma_inter_members_smaller(t: TypeV)
    ensures
        t matches TypeV::Intersection { types, .. } ==> tys_size(types) < ty_size(t),
{
}

pub proof fn lemma_ref_args_smaller(t: TypeV)
    ensures
        t matches TypeV::Ref { type_args, .. } ==> tys_size(type_args) < ty_size(t),
{
}

pub proof fn lemma_tuple_elems_smaller(t: TypeV)
    ensures
        t matches TypeV::Tuple { elems, .. } ==> tys_size(elems) < ty_size(t),
{
}

pub proof fn lemma_struct_members_smaller(t: TypeV)
    ensures
        struct_members_of(t) matches Option::Some(ms) ==> elems_size(ms) < ty_size(t),
{
}

/// Every member of `ss` is assignable to `t`.
pub open spec fn all_assignable_to(ss: Seq<TypeV>, t: TypeV) -> bool
    decreases tys_size(ss) + ty_size(t),
{
    if ss.len() == 0 {
        true
    } else {
        proof {
            lemma_tys_size_mem(ss, 0);
            lemma_tys_size_tail(ss);
        }
        assignable(ss[0], t) && all_assignable_to(ss.drop_first(), t)
    }
}

/// Some member of `ts` accepts `s`.
pub open spec fn any_accepts(s: TypeV, ts: Seq<TypeV>) -> bool
    decreases ty_size(s) + tys_size(ts),
{
    if ts.len() == 0 {
        false
    } else {
        proof {
            lemma_tys_size_mem(ts, 0);
            lemma_tys_size_tail(ts);
        }
        assignable(s, ts[0]) || any_accepts(s, ts.drop_first())
    }
}

/// Some member of `ss` is assignable to `t`.
pub open spec fn any_member_assignable(ss: Seq<TypeV>, t: TypeV) -> bool
    decreases tys_size(ss) + ty_size(t),
{
    if ss.len() == 0 {
        false
    } else {
        proof {
            lemma_tys_size_mem(ss, 0);
            lemma_tys_size_tail(ss);
        }
        assignable(ss[0], t) || any_member_assignable(ss.drop_first(), t)
    }
}

/// Every member of `ts` accepts `s`.
pub open spec fn all_accept(s: TypeV, ts: Seq<TypeV>) -> bool
    decreases ty_size(s) + tys_size(ts),
{
    if ts.len() == 0 {
        true
    } else {
        proof {
            lemma_tys_size_mem(ts, 0);
            lemma_tys_size_tail(ts);
        }
        assignable(s, ts[0]) && all_accept(s, ts.drop_first())
    }
}

/// Pairwise assignability of equal-length element lists.
pub open spec fn all_pairwise_assignable(ss: Seq<TypeV>, ts: Seq<TypeV>) -> bool
    decreases tys_size(ss) + tys_size(ts),
{
    if ss.len() == 0 || ts.len() == 0 {
        true
    } else {
        proof {
            lemma_tys_size_mem(ss, 0);
            lemma_tys_size_mem(ts, 0);
            lemma_tys_size_tail(ss);
            lemma_tys_size_tail(ts);
        }
        assignable(ss[0], ts[0]) && all_pairwise_assignable(ss.drop_first(), ts.drop_first())
    }
}

pub proof fn lemma_tys_size_tail(ts: Seq<TypeV>)
    requires
        ts.len() > 0,
    ensures
        tys_size(ts.drop_first()) < tys_size(ts),
{
}

pub proof fn lemma_params_size_tail(ps: Seq<FnParamV>)
    requires
        ps.len() > 0,
    ensures
        params_size(ps.drop_first()) < params_size(ps),
{
}

pub proof fn lemma_elems_size_tail(es: Seq<TypeElementV>)
    requires
        es.len() > 0,
    ensures
        elems_size(es.drop_first()) < elems_size(es),
{
}

/// Function-shape assignability: contravariant in matched parameters,
/// covariant in the return type; extra source parameters must be
/// optional.
pub open spec fn fn_shape_assignable(
    sp: Seq<FnParamV>,
    sr: TypeV,
    tp: Seq<FnParamV>,
    tr: TypeV,
) -> bool
    decreases params_size(sp) + ty_size(sr) + params_size(tp) + ty_size(tr) + 1,
{
    params_contravariant(sp, tp) && extra_params_optional(sp, tp.len() as int) && assignable(
        sr,
        tr,
    )
}

/// Each matched parameter is contravariant: the target's parameter
/// type must be assignable to the source's.
pub open spec fn params_contravariant(sp: Seq<FnParamV>, tp: Seq<FnParamV>) -> bool
    decreases params_size(sp) + params_size(tp),
{
    if sp.len() == 0 || tp.len() == 0 {
        true
    } else {
        proof {
            lemma_params_size_mem(sp, 0);
            lemma_params_size_mem(tp, 0);
            lemma_params_size_tail(sp);
            lemma_params_size_tail(tp);
            lemma_param_ty_size(sp[0]);
            lemma_param_ty_size(tp[0]);
        }
        assignable(param_ty_or_any(tp[0]), param_ty_or_any(sp[0])) && params_contravariant(
            sp.drop_first(),
            tp.drop_first(),
        )
    }
}

pub proof fn lemma_param_ty_size(p: FnParamV)
    ensures
        ty_size(param_ty_or_any(p)) <= param_size(p),
{
    match p.ty {
        Option::Some(..) => {},
        Option::None => {},
    }
}

/// Source parameters past the target's arity must all be optional.
pub open spec fn extra_params_optional(sp: Seq<FnParamV>, from: int) -> bool {
    forall|i: int| from <= i < sp.len() ==> sp[i].optional
}

/// The key of a member, where it has one.
pub open spec fn elem_key(e: TypeElementV) -> Option<PropKeyV> {
    match e {
        TypeElementV::Property { key, .. } => Option::Some(key),
        TypeElementV::Method { key, .. } => Option::Some(key),
        TypeElementV::CallSig { .. } => Option::None,
        TypeElementV::ConstructSig { .. } => Option::None,
    }
}

/// Does source member `se` satisfy target member `te`?
pub open spec fn member_satisfies(se: TypeElementV, te: TypeElementV) -> bool
    decreases elem_size(se) + elem_size(te),
{
    match (se, te) {
        (
            TypeElementV::Property { key: sk, ty: st, .. },
            TypeElementV::Property { key: tk, ty: tt, .. },
        ) => {
            proof {
                lemma_opt_elem_size(st);
                lemma_opt_elem_size(tt);
            }
            strip_key(sk) == strip_key(tk) && assignable(opt_ty_or_any(st), opt_ty_or_any(tt))
        },
        (
            TypeElementV::Method { key: sk, params: sp, ret: sr, .. },
            TypeElementV::Method { key: tk, params: tp, ret: tr, .. },
        ) => {
            proof {
                lemma_opt_elem_size(sr);
                lemma_opt_elem_size(tr);
            }
            strip_key(sk) == strip_key(tk) && fn_shape_assignable(
                sp,
                opt_ty_or_any(sr),
                tp,
                opt_ty_or_any(tr),
            )
        },
        (
            TypeElementV::CallSig { params: sp, ret: sr, .. },
            TypeElementV::CallSig { params: tp, ret: tr, .. },
        ) => {
            proof {
                lemma_opt_elem_size(sr);
                lemma_opt_elem_size(tr);
            }
            fn_shape_assignable(sp, opt_ty_or_any(sr), tp, opt_ty_or_any(tr))
        },
        (
            TypeElementV::ConstructSig { params: sp, ret: sr, .. },
            TypeElementV::ConstructSig { params: tp, ret: tr, .. },
        ) => {
            proof {
                lemma_opt_elem_size(sr);
                lemma_opt_elem_size(tr);
            }
            fn_shape_assignable(sp, opt_ty_or_any(sr), tp, opt_ty_or_any(tr))
        },
        _ => false,
    }
}

pub open spec fn opt_ty_or_any(t: Option<Box<TypeV>>) -> TypeV {
    match t {
        Option::Some(b) => *b,
        Option::None => TypeV::Keyword { span: crate::ty::dummy_span(), kind: KeywordKind::Any },
    }
}

pub proof fn lemma_opt_elem_size(t: Option<Box<TypeV>>)
    ensures
        ty_size(opt_ty_or_any(t)) <= 1 + opt_ty_size(t),
{
    match t {
        Option::Some(..) => {},
        Option::None => {},
    }
}

/// Is some member of `ss` satisfying `te`?
pub open spec fn some_member_satisfies(ss: Seq<TypeElementV>, te: TypeElementV) -> bool
    decreases elems_size(ss) + elem_size(te),
{
    if ss.len() == 0 {
        false
    } else {
        proof {
            lemma_elems_size_mem(ss, 0);
            lemma_elems_size_tail(ss);
        }
        member_satisfies(ss[0], te) || some_member_satisfies(ss.drop_first(), te)
    }
}

/// Every member of the target is matched by some member of the source.
pub open spec fn all_target_members_matched(
    ss: Seq<TypeElementV>,
    ts: Seq<TypeElementV>,
) -> bool
    decreases elems_size(ss) + elems_size(ts),
{
    if ts.len() == 0 {
        true
    } else {
        proof {
            lemma_elems_size_mem(ts, 0);
            lemma_elems_size_tail(ts);
        }
        some_member_satisfies(ss, ts[0]) && all_target_members_matched(ss, ts.drop_first())
    }
}

// ------------------------------------------------------------------
// Pointwise characterizations of the sequence helpers.
// ------------------------------------------------------------------

pub proof fn lemma_all_assignable_to(ss: Seq<TypeV>, t: TypeV)
    ensures
        all_assignable_to(ss, t) == (forall|i: int| 0 <= i < ss.len() ==> assignable(ss[i], t)),
    decreases ss.len(),
{
    if ss.len() > 0 {
        lemma_all_assignable_to(ss.drop_first(), t);
        assert forall|i: int| 0 <= i < ss.len() && all_assignable_to(ss, t) implies assignable(
            ss[i],
            t,
        ) by {
            if i > 0 {
                assert(ss.drop_first()[i - 1] == ss[i]);
            }
        }
        if forall|i: int| 0 <= i < ss.len() ==> assignable(ss[i], t) {
            assert forall|i: int| 0 <= i < ss.drop_first().len() implies assignable(
                ss.drop_first()[i],
                t,
            ) by {
                assert(ss.drop_first()[i] == ss[i + 1]);
            }
        }
    }
}

pub proof fn lemma_any_accepts(s: TypeV, ts: Seq<TypeV>)
    ensures
        any_accepts(s, ts) == (exists|i: int| 0 <= i < ts.len() && assignable(s, ts[i])),
    decreases ts.len(),
{
    if ts.len() > 0 {
        lemma_any_accepts(s, ts.drop_first());
        if any_accepts(s, ts) {
            if assignable(s, ts[0]) {
            } else {
                let i = choose|i: int|
                    0 <= i < ts.drop_first().len() && assignable(s, ts.drop_first()[i]);
                assert(ts.drop_first()[i] == ts[i + 1]);
            }
        }
        if exists|i: int| 0 <= i < ts.len() && assignable(s, ts[i]) {
            let i = choose|i: int| 0 <= i < ts.len() && assignable(s, ts[i]);
            if i > 0 {
                assert(ts.drop_first()[i - 1] == ts[i]);
            }
        }
    }
}

pub proof fn lemma_any_member_assignable(ss: Seq<TypeV>, t: TypeV)
    ensures
        any_member_assignable(ss, t) == (exists|i: int|
            0 <= i < ss.len() && assignable(ss[i], t)),
    decreases ss.len(),
{
    if ss.len() > 0 {
        lemma_any_member_assignable(ss.drop_first(), t);
        if any_member_assignable(ss, t) {
            if assignable(ss[0], t) {
            } else {
                let i = choose|i: int|
                    0 <= i < ss.drop_first().len() && assignable(ss.drop_first()[i], t);
                assert(ss.drop_first()[i] == ss[i + 1]);
            }
        }
        if exists|i: int| 0 <= i < ss.len() && assignable(ss[i], t) {
            let i = choose|i: int| 0 <= i < ss.len() && assignable(ss[i], t);
            if i > 0 {
                assert(ss.drop_first()[i - 1] == ss[i]);
            }
        }
    }
}

pub proof fn lemma_all_accept(s: TypeV, ts: Seq<TypeV>)
    ensures
        all_accept(s, ts) == (forall|i: int| 0 <= i < ts.len() ==> assignable(s, ts[i])),
    decreases ts.len(),
{
    if ts.len() > 0 {
        lemma_all_accept(s, ts.drop_first());
        assert forall|i: int| 0 <= i < ts.len() && all_accept(s, ts) implies assignable(
            s,
            ts[i],
        ) by {
            if i > 0 {
                assert(ts.drop_first()[i - 1] == ts[i]);
            }
        }
        if forall|i: int| 0 <= i < ts.len() ==> assignable(s, ts[i]) {
            assert forall|i: int| 0 <= i < ts.drop_first().len() implies assignable(
                s,
                ts.drop_first()[i],
            ) by {
                assert(ts.drop_first()[i] == ts[i + 1]);
            }
        }
    }
}

pub proof fn lemma_all_pairwise_assignable(ss: Seq<TypeV>, ts: Seq<TypeV>)
    requires
        ss.len() == ts.len(),
    ensures
        all_pairwise_assignable(ss, ts) == (forall|i: int|
            0 <= i < ss.len() ==> assignable(ss[i], ts[i])),
    decreases ss.len(),
{
    if ss.len() > 0 {
        lemma_all_pairwise_assignable(ss.drop_first(), ts.drop_first());
        assert forall|i: int|
            0 <= i < ss.len() && all_pairwise_assignable(ss, ts) implies assignable(
            ss[i],
            ts[i],
        ) by {
            if i > 0 {
                assert(ss.drop_first()[i - 1] == ss[i]);
                assert(ts.drop_first()[i - 1] == ts[i]);
            }
        }
        if forall|i: int| 0 <= i < ss.len() ==> assignable(ss[i], ts[i]) {
            assert forall|i: int| 0 <= i < ss.drop_first().len() implies assignable(
                ss.drop_first()[i],
                ts.drop_first()[i],
            ) by {
                assert(ss.drop_first()[i] == ss[i + 1]);
                assert(ts.drop_first()[i] == ts[i + 1]);
            }
        }
    }
}

pub proof fn lemma_params_contravariant(sp: Seq<FnParamV>, tp: Seq<FnParamV>)
    ensures
        params_contravariant(sp, tp) == (forall|i: int|
            0 <= i < sp.len() && i < tp.len() ==> assignable(
                param_ty_or_any(tp[i]),
                param_ty_or_any(sp[i]),
            )),
    decreases sp.len() + tp.len(),
{
    if sp.len() > 0 && tp.len() > 0 {
        lemma_params_contravariant(sp.drop_first(), tp.drop_first());
        assert forall|i: int|
            0 <= i < sp.len() && i < tp.len() && params_contravariant(sp, tp) implies assignable(
            param_ty_or_any(tp[i]),
            param_ty_or_any(sp[i]),
        ) by {
            if i > 0 {
                assert(sp.drop_first()[i - 1] == sp[i]);
                assert(tp.drop_first()[i - 1] == tp[i]);
            }
        }
        if forall|i: int|
            0 <= i < sp.len() && i < tp.len() ==> assignable(
                param_ty_or_any(tp[i]),
                param_ty_or_any(sp[i]),
            ) {
            assert forall|i: int|
                0 <= i < sp.drop_first().len() && i < tp.drop_first().len() implies assignable(
                param_ty_or_any(tp.drop_first()[i]),
                param_ty_or_any(sp.drop_first()[i]),
            ) by {
                assert(sp.drop_first()[i] == sp[i + 1]);
                assert(tp.drop_first()[i] == tp[i + 1]);
            }
        }
    }
}

pub proof fn lemma_some_member_satisfies(ss: Seq<TypeElementV>, te: TypeElementV)
    ensures
        some_member_satisfies(ss, te) == (exists|i: int|
            0 <= i < ss.len() && member_satisfies(ss[i], te)),
    decreases ss.len(),
{
    if ss.len() > 0 {
        lemma_some_member_satisfies(ss.drop_first(), te);
        if some_member_satisfies(ss, te) {
            if member_satisfies(ss[0], te) {
            } else {
                let i = choose|i: int|
                    0 <= i < ss.drop_first().len() && member_satisfies(ss.drop_first()[i], te);
                assert(ss.drop_first()[i] == ss[i + 1]);
            }
        }
        if exists|i: int| 0 <= i < ss.len() && member_satisfies(ss[i], te) {
            let i = choose|i: int| 0 <= i < ss.len() && member_satisfies(ss[i], te);
            if i > 0 {
                assert(ss.drop_first()[i - 1] == ss[i]);
            }
        }
    }
}

// ------------------------------------------------------------------
// The executable checker.
// ------------------------------------------------------------------

fn is_any_kw(t: &Type) -> (r: bool)
    ensures
        r == (t@ matches TypeV::Keyword { kind: KeywordKind::Any, .. }),
{
    match t {
        Type::Keyword { kind: KeywordKind::Any, .. } => true,
        _ => {
            proof {
                broadcast use crate::ty::lemma_view_keeps_tag;

                match t {
                    Type::Keyword { kind, .. } => {
                        assert(!(t@ matches TypeV::Keyword { kind: KeywordKind::Any, .. }));
                    },
                    _ => {
                        assert(crate::ty::exec_tag_of(*t) != 0);
                    },
                }
            }
            false
        },
    }
}

fn is_never_kw(t: &Type) -> (r: bool)
    ensures
        r == (t@ matches TypeV::Keyword { kind: KeywordKind::Never, .. }),
{
    match t {
        Type::Keyword { kind: KeywordKind::Never, .. } => true,
        _ => {
            proof {
                broadcast use crate::ty::lemma_view_keeps_tag;

                match t {
                    Type::Keyword { kind, .. } => {
                        assert(!(t@ matches TypeV::Keyword { kind: KeywordKind::Never, .. }));
                    },
                    _ => {
                        assert(crate::ty::exec_tag_of(*t) != 0);
                    },
                }
            }
            false
        },
    }
}

/// The member list of a structural type, where it has one.
fn struct_members<'a>(t: &'a Type) -> (r: Option<&'a Vec<TypeElement>>)
    ensures
        (r is Some) == (struct_members_of(t@) is Some),
        r matches Option::Some(v) ==> view_elems(v@) == struct_members_of(t@)->0,
{
    proof {
        broadcast use crate::ty::lemma_view_keeps_tag;

    }
    match t {
        Type::TypeLit { members, .. } => Option::Some(members),
        Type::Class { body, .. } => Option::Some(body),
        Type::Interface { body, .. } => Option::Some(body),
        _ => {
            proof {
                let tag = crate::ty::exec_tag_of(*t);
                assert(tag != 8 && tag != 9 && tag != 10);
            }
            Option::None
        },
    }
}

/// Is the source type assignable to the target type? The executable
/// mirror of `assignable`.
pub fn is_assignable(s: &Type, t: &Type) -> (r: bool)
    ensures
        r == assignable(s@, t@),
    decreases ty_size(s@) + ty_size(t@),
{
    proof {
        broadcast use crate::ty::lemma_view_keeps_tag;

    }
    if is_any_kw(s) || is_any_kw(t) {
        return true;
    }
    if is_never_kw(s) {
        return true;
    }
    match s {
        Type::Union { types: ss, .. } => {
            proof {
                lemma_union_members_smaller(s@);
            }
            return all_assignable_to_exec(ss, t);
        },
        _ => {},
    }
    proof {
        assert(crate::ty::exec_tag_of(*s) != 4);
        assert(!(s@ is Union));
    }
    match t {
        Type::Union { types: ts, .. } => {
            proof {
                lemma_union_members_smaller(t@);
            }
            return any_accepts_exec(s, ts);
        },
        _ => {},
    }
    proof {
        assert(!(t@ is Union));
    }
    match s {
        Type::Intersection { types: ss, .. } => {
            proof {
                lemma_inter_members_smaller(s@);
            }
            return any_member_assignable_exec(ss, t);
        },
        _ => {},
    }
    proof {
        assert(!(s@ is Intersection));
    }
    match t {
        Type::Intersection { types: ts, .. } => {
            proof {
                lemma_inter_members_smaller(t@);
            }
            return all_accept_exec(s, ts);
        },
        _ => {},
    }
    proof {
        assert(!(t@ is Intersection));
    }
    if eq_ignore_span(s, t) {
        return true;
    }
    match (s, t) {
        (Type::Lit { lit, .. }, Type::Keyword { kind, .. }) => {
            let k = match lit {
                crate::ty::LitValue::Bool(..) => KeywordKind::Boolean,
                crate::ty::LitValue::Num(..) => KeywordKind::Number,
                crate::ty::LitValue::Str(..) => KeywordKind::Str,
            };
            k == *kind
        },
        (Type::Array { elem: se, .. }, Type::Array { elem: te, .. }) => is_assignable(se, te),
        (Type::Tuple { elems: se, .. }, Type::Tuple { elems: te, .. }) => {
            proof {
                lemma_view_tys(se@);
                lemma_view_tys(te@);
            }
            if se.len() != te.len() {
                return false;
            }
            all_pairwise_exec(se, te)
        },
        (
            Type::Function { params: sp, ret: sr, .. },
            Type::Function { params: tp, ret: tr, .. },
        ) => fn_shape_exec(sp, sr, tp, tr),
        (
            Type::Constructor { params: sp, ret: sr, .. },
            Type::Constructor { params: tp, ret: tr, .. },
        ) => fn_shape_exec(sp, sr, tp, tr),
        (
            Type::EnumVariant { enum_name, .. },
            Type::Enum { name, .. },
        ) => *enum_name == *name,
        _ => {
            let sm = struct_members(s);
            let tm = struct_members(t);
            match (sm, tm) {
                (Option::Some(a), Option::Some(b)) => {
                    proof {
                        lemma_struct_members_smaller(s@);
                        lemma_struct_members_smaller(t@);
                    }
                    all_members_matched_exec(a, b, s, t)
                },
                _ => false,
            }
        },
    }
}

fn all_assignable_to_exec(ss: &Vec<Type>, t: &Type) -> (r: bool)
    ensures
        r == all_assignable_to(view_tys(ss@), t@),
    decreases tys_size(view_tys(ss@)) + ty_size(t@),
{
    proof {
        lemma_view_tys(ss@);
        lemma_all_assignable_to(view_tys(ss@), t@);
    }
    let n = ss.len();
    let mut i: usize = 0;
    while i < n
        invariant
            n == ss.len(),
            i <= n,
            forall|j: int| 0 <= j < i ==> assignable(view_ty(ss@[j]), t@),
        decreases n - i,
    {
        proof {
            lemma_view_tys(ss@);
            lemma_tys_size_mem(view_tys(ss@), i as int);
        }
        if !is_assignable(&ss[i], t) {
            proof {
                lemma_view_tys(ss@);
                lemma_all_assignable_to(view_tys(ss@), t@);
            }
            return false;
        }
        i += 1;
    }
    proof {
        lemma_view_tys(ss@);
        lemma_all_assignable_to(view_tys(ss@), t@);
    }
    true
}

fn any_accepts_exec(s: &Type, ts: &Vec<Type>) -> (r: bool)
    ensures
        r == any_accepts(s@, view_tys(ts@)),
    decreases ty_size(s@) + tys_size(view_tys(ts@)),
{
    proof {
        lemma_view_tys(ts@);
        lemma_any_accepts(s@, view_tys(ts@));
    }
    let n = ts.len();
    let mut i: usize = 0;
    while i < n
        invariant
            n == ts.len(),
            i <= n,
            forall|j: int| 0 <= j < i ==> !assignable(s@, view_ty(ts@[j])),
        decreases n - i,
    {
        proof {
            lemma_view_tys(ts@);
            lemma_tys_size_mem(view_tys(ts@), i as int);
        }
        if is_assignable(s, &ts[i]) {
            proof {
                lemma_view_tys(ts@);
                lemma_any_accepts(s@, view_tys(ts@));
            }
            return true;
        }
        i += 1;
    }
    proof {
        lemma_view_tys(ts@);
        lemma_any_accepts(s@, view_tys(ts@));
        assert forall|j: int| 0 <= j < view_tys(ts@).len() implies !assignable(
            s@,
            view_tys(ts@)[j],
        ) by {
            assert(view_tys(ts@)[j] == view_ty(ts@[j]));
        }
    }
    false
}

fn any_member_assignable_exec(ss: &Vec<Type>, t: &Type) -> (r: bool)
    ensures
        r == any_member_assignable(view_tys(ss@), t@),
    decreases tys_size(view_tys(ss@)) + ty_size(t@),
{
    proof {
        lemma_view_tys(ss@);
        lemma_any_member_assignable(view_tys(ss@), t@);
    }
    let n = ss.len();
    let mut i: usize = 0;
    while i < n
        invariant
            n == ss.len(),
            i <= n,
            forall|j: int| 0 <= j < i ==> !assignable(view_ty(ss@[j]), t@),
        decreases n - i,
    {
        proof {
            lemma_view_tys(ss@);
            lemma_tys_size_mem(view_tys(ss@), i as int);
        }
        if is_assignable(&ss[i], t) {
            proof {
                lemma_view_tys(ss@);
                lemma_any_member_assignable(view_tys(ss@), t@);
            }
            return true;
        }
        i += 1;
    }
    proof {
        lemma_view_tys(ss@);
        lemma_any_member_assignable(view_tys(ss@), t@);
        assert forall|j: int| 0 <= j < view_tys(ss@).len() implies !assignable(
            view_tys(ss@)[j],
            t@,
        ) by {
            assert(view_tys(ss@)[j] == view_ty(ss@[j]));
        }
    }
    false
}

fn all_accept_exec(s: &Type, ts: &Vec<Type>) -> (r: bool)
    ensures
        r == all_accept(s@, view_tys(ts@)),
    decreases ty_size(s@) + tys_size(view_tys(ts@)),
{
    proof {
        lemma_view_tys(ts@);
        lemma_all_accept(s@, view_tys(ts@));
    }
    let n = ts.len();
    let mut i: usize = 0;
    while i < n
        invariant
            n == ts.len(),
            i <= n,
            forall|j: int| 0 <= j < i ==> assignable(s@, view_ty(ts@[j])),
        decreases n - i,
    {
        proof {
            lemma_view_tys(ts@);
            lemma_tys_size_mem(view_tys(ts@), i as int);
        }
        if !is_assignable(s, &ts[i]) {
            proof {
                lemma_view_tys(ts@);
                lemma_all_accept(s@, view_tys(ts@));
            }
            return false;
        }
        i += 1;
    }
    proof {
        lemma_view_tys(ts@);
        lemma_all_accept(s@, view_tys(ts@));
    }
    true
}

fn all_pairwise_exec(ss: &Vec<Type>, ts: &Vec<Type>) -> (r: bool)
    requires
        ss@.len() == ts@.len(),
    ensures
        r == all_pairwise_assignable(view_tys(ss@), view_tys(ts@)),
    decreases tys_size(view_tys(ss@)) + tys_size(view_tys(ts@)),
{
    proof {
        lemma_view_tys(ss@);
        lemma_view_tys(ts@);
        lemma_all_pairwise_assignable(view_tys(ss@), view_tys(ts@));
    }
    let n = ss.len();
    let mut i: usize = 0;
    while i < n
        invariant
            n == ss.len(),
            ss@.len() == ts@.len(),
            i <= n,
            forall|j: int| 0 <= j < i ==> assignable(view_ty(ss@[j]), view_ty(ts@[j])),
        decreases n - i,
    {
        proof {
            lemma_view_tys(ss@);
            lemma_view_tys(ts@);
            lemma_tys_size_mem(view_tys(ss@), i as int);
            lemma_tys_size_mem(view_tys(ts@), i as int);
        }
        if !is_assignable(&ss[i], &ts[i]) {
            proof {
                lemma_view_tys(ss@);
                lemma_view_tys(ts@);
                lemma_all_pairwise_assignable(view_tys(ss@), view_tys(ts@));
            }
            return false;
        }
        i += 1;
    }
    proof {
        lemma_view_tys(ss@);
        lemma_view_tys(ts@);
        lemma_all_pairwise_assignable(view_tys(ss@), view_tys(ts@));
    }
    true
}

fn fn_shape_exec(sp: &Vec<FnParam>, sr: &Type, tp: &Vec<FnParam>, tr: &Type) -> (r: bool)
    ensures
        r == fn_shape_assignable(view_params(sp@), sr@, view_params(tp@), tr@),
    decreases params_size(view_params(sp@)) + ty_size(sr@) + params_size(view_params(tp@))
        + ty_size(tr@) + 1,
{
    proof {
        lemma_view_params(sp@);
        lemma_view_params(tp@);
    }
    if !params_contra_exec(sp, tp) {
        return false;
    }
    if !extra_optional_exec(sp, tp.len()) {
        return false;
    }
    is_assignable(sr, tr)
}

fn params_contra_exec(sp: &Vec<FnParam>, tp: &Vec<FnParam>) -> (r: bool)
    ensures
        r == params_contravariant(view_params(sp@), view_params(tp@)),
    decreases params_size(view_params(sp@)) + params_size(view_params(tp@)),
{
    proof {
        lemma_view_params(sp@);
        lemma_view_params(tp@);
        lemma_params_contravariant(view_params(sp@), view_params(tp@));
    }
    let n = if sp.len() < tp.len() {
        sp.len()
    } else {
        tp.len()
    };
    let mut i: usize = 0;
    while i < n
        invariant
            n <= sp.len(),
            n <= tp.len(),
            n == if sp@.len() < tp@.len() {
                sp@.len()
            } else {
                tp@.len()
            },
            i <= n,
            forall|j: int|
                0 <= j < i ==> assignable(
                    param_ty_or_any(view_param(tp@[j])),
                    param_ty_or_any(view_param(sp@[j])),
                ),
        decreases n - i,
    {
        proof {
            lemma_view_params(sp@);
            lemma_view_params(tp@);
            lemma_params_size_mem(view_params(sp@), i as int);
            lemma_params_size_mem(view_params(tp@), i as int);
            lemma_param_ty_size(view_param(sp@[i as int]));
            lemma_param_ty_size(view_param(tp@[i as int]));
        }
        let ok = match (&tp[i].ty, &sp[i].ty) {
            (Option::Some(tb), Option::Some(sb)) => is_assignable(tb, sb),
            (Option::None, _) => {
                proof {
                    assert(param_ty_or_any(view_param(tp@[i as int])) matches TypeV::Keyword {
                        kind: KeywordKind::Any,
                        ..
                    });
                }
                true
            },
            (_, Option::None) => {
                proof {
                    assert(param_ty_or_any(view_param(sp@[i as int])) matches TypeV::Keyword {
                        kind: KeywordKind::Any,
                        ..
                    });
                }
                true
            },
        };
        if !ok {
            proof {
                lemma_view_params(sp@);
                lemma_view_params(tp@);
                lemma_params_contravariant(view_params(sp@), view_params(tp@));
            }
            return false;
        }
        i += 1;
    }
    proof {
        lemma_view_params(sp@);
        lemma_view_params(tp@);
        lemma_params_contravariant(view_params(sp@), view_params(tp@));
        assert forall|j: int|
            0 <= j < view_params(sp@).len() && j < view_params(tp@).len() implies assignable(
            param_ty_or_any(view_params(tp@)[j]),
            param_ty_or_any(view_params(sp@)[j]),
        ) by {
            assert(view_params(sp@)[j] == view_param(sp@[j]));
            assert(view_params(tp@)[j] == view_param(tp@[j]));
        }
    }
    true
}

fn extra_optional_exec(sp: &Vec<FnParam>, from: usize) -> (r: bool)
    ensures
        r == extra_params_optional(view_params(sp@), from as int),
{
    proof {
        lemma_view_params(sp@);
    }
    let n = sp.len();
    let mut i: usize = from;
    if from > n {
        proof {
            assert forall|j: int|
                from <= j < view_params(sp@).len() implies view_params(sp@)[j].optional by {}
        }
        return true;
    }
    while i < n
        invariant
            n == sp.len(),
            from <= i,
            i <= n,
            forall|j: int| from <= j < i ==> view_param(sp@[j]).optional,
        decreases n - i,
    {
        if !sp[i].optional {
            proof {
                lemma_view_params(sp@);
                assert(view_params(sp@)[i as int] == view_param(sp@[i as int]));
            }
            return false;
        }
        i += 1;
    }
    proof {
        lemma_view_params(sp@);
        assert forall|j: int| from <= j < view_params(sp@).len() implies view_params(
            sp@,
        )[j].optional by {
            assert(view_params(sp@)[j] == view_param(sp@[j]));
        }
    }
    true
}

fn member_satisfies_exec(se: &TypeElement, te: &TypeElement) -> (r: bool)
    ensures
        r == member_satisfies(view_elem(*se), view_elem(*te)),
    decreases elem_size(view_elem(*se)) + elem_size(view_elem(*te)),
{
    match (se, te) {
        (
            TypeElement::Property { key: sk, ty: st, .. },
            TypeElement::Property { key: tk, ty: tt, .. },
        ) => {
            if !crate::ty::key_eq(sk, tk) {
                return false;
            }
            match (st, tt) {
                (Option::Some(sb), Option::Some(tb)) => {
                    proof {
                        lemma_opt_elem_size(view_opt_ty(*st));
                        lemma_opt_elem_size(view_opt_ty(*tt));
                    }
                    is_assignable(sb, tb)
                },
                (Option::None, _) => true,
                (_, Option::None) => true,
            }
        },
        (
            TypeElement::Method { key: sk, params: sp, ret: sr, .. },
            TypeElement::Method { key: tk, params: tp, ret: tr, .. },
        ) => {
            if !crate::ty::key_eq(sk, tk) {
                return false;
            }
            ret_shape_exec(sp, sr, tp, tr)
        },
        (
            TypeElement::CallSig { params: sp, ret: sr, .. },
            TypeElement::CallSig { params: tp, ret: tr, .. },
        ) => ret_shape_exec(sp, sr, tp, tr),
        (
            TypeElement::ConstructSig { params: sp, ret: sr, .. },
            TypeElement::ConstructSig { params: tp, ret: tr, .. },
        ) => ret_shape_exec(sp, sr, tp, tr),
        _ => {
            proof {
                broadcast use crate::ty::lemma_elem_view_tag;

            }
            false
        },
    }
}

/// Function-shape assignability where the return annotations may be
/// missing (treated as `any`).
fn ret_shape_exec(
    sp: &Vec<FnParam>,
    sr: &Option<Box<Type>>,
    tp: &Vec<FnParam>,
    tr: &Option<Box<Type>>,
) -> (r: bool)
    ensures
        r == fn_shape_assignable(
            view_params(sp@),
            opt_ty_or_any(view_opt_ty(*sr)),
            view_params(tp@),
            opt_ty_or_any(view_opt_ty(*tr)),
        ),
    decreases params_size(view_params(sp@)) + opt_ty_size(view_opt_ty(*sr)) + params_size(
        view_params(tp@),
    ) + opt_ty_size(view_opt_ty(*tr)) + 3,
{
    proof {
        lemma_opt_elem_size(view_opt_ty(*sr));
        lemma_opt_elem_size(view_opt_ty(*tr));
        lemma_view_params(sp@);
        lemma_view_params(tp@);
    }
    if !params_contra_exec(sp, tp) {
        return false;
    }
    if !extra_optional_exec(sp, tp.len()) {
        return false;
    }
    match (sr, tr) {
        (Option::Some(sb), Option::Some(tb)) => is_assignable(sb, tb),
        (Option::None, _) => {
            proof {
                assert(opt_ty_or_any(view_opt_ty(*sr)) matches TypeV::Keyword {
                    kind: KeywordKind::Any,
                    ..
                });
                assert(assignable(
                    opt_ty_or_any(view_opt_ty(*sr)),
                    opt_ty_or_any(view_opt_ty(*tr)),
                ));
            }
            true
        },
        (_, Option::None) => {
            proof {
                assert(opt_ty_or_any(view_opt_ty(*tr)) matches TypeV::Keyword {
                    kind: KeywordKind::Any,
                    ..
                });
                assert(assignable(
                    opt_ty_or_any(view_opt_ty(*sr)),
                    opt_ty_or_any(view_opt_ty(*tr)),
                ));
            }
            true
        },
    }
}

fn some_member_exec(ss: &Vec<TypeElement>, te: &TypeElement) -> (r: bool)
    ensures
        r == some_member_satisfies(view_elems(ss@), view_elem(*te)),
    decreases elems_size(view_elems(ss@)) + elem_size(view_elem(*te)),
{
    proof {
        lemma_view_elems(ss@);
        lemma_some_member_satisfies(view_elems(ss@), view_elem(*te));
    }
    let n = ss.len();
    let mut i: usize = 0;
    while i < n
        invariant
            n == ss.len(),
            i <= n,
            forall|j: int| 0 <= j < i ==> !member_satisfies(view_elem(ss@[j]), view_elem(*te)),
        decreases n - i,
    {
        proof {
            lemma_view_elems(ss@);
            lemma_elems_size_mem(view_elems(ss@), i as int);
        }
        if member_satisfies_exec(&ss[i], te) {
            proof {
                lemma_view_elems(ss@);
                lemma_some_member_satisfies(view_elems(ss@), view_elem(*te));
            }
            return true;
        }
        i += 1;
    }
    proof {
        lemma_view_elems(ss@);
        lemma_some_member_satisfies(view_elems(ss@), view_elem(*te));
        assert forall|j: int| 0 <= j < view_elems(ss@).len() implies !member_satisfies(
            view_elems(ss@)[j],
            view_elem(*te),
        ) by {
            assert(view_elems(ss@)[j] == view_elem(ss@[j]));
        }
    }
    false
}

fn all_members_matched_exec(
    ss: &Vec<TypeElement>,
    ts: &Vec<TypeElement>,
    s_holder: &Type,
    t_holder: &Type,
) -> (r: bool)
    ensures
        r == all_target_members_matched(view_elems(ss@), view_elems(ts@)),
    decreases elems_size(view_elems(ss@)) + elems_size(view_elems(ts@)),
{
    proof {
        lemma_view_elems(ss@);
        lemma_view_elems(ts@);
        lemma_all_target_members_matched(view_elems(ss@), view_elems(ts@));
    }
    let n = ts.len();
    let mut i: usize = 0;
    while i < n
        invariant
            n == ts.len(),
            i <= n,
            forall|j: int|
                0 <= j < i ==> some_member_satisfies(view_elems(ss@), view_elem(ts@[j])),
        decreases n - i,
    {
        proof {
            lemma_view_elems(ts@);
            lemma_elems_size_mem(view_elems(ts@), i as int);
        }
        if !some_member_exec(ss, &ts[i]) {
            proof {
                lemma_view_elems(ts@);
                lemma_all_target_members_matched(view_elems(ss@), view_elems(ts@));
            }
            return false;
        }
        i += 1;
    }
    proof {
        lemma_view_elems(ts@);
        lemma_all_target_members_matched(view_elems(ss@), view_elems(ts@));
        assert forall|j: int| 0 <= j < view_elems(ts@).len() implies some_member_satisfies(
            view_elems(ss@),
            view_elems(ts@)[j],
        ) by {
            assert(view_elems(ts@)[j] == view_elem(ts@[j]));
        }
    }
    true
}

/// Checks assignability, producing the diagnostic the analyzer
/// records on failure.
pub fn check_assignable(s: &Type, t: &Type, span: Span) -> (r: Result<(), crate::errors::Error>)
    ensures
        (r is Ok) == assignable(s@, t@),
        r matches Result::Err(e) ==> e@ == (crate::errors::ErrorV::NotAssignable {
            span,
            source: crate::ty::span_of_v(s@),
            target: crate::ty::span_of_v(t@),
        }),
{
    if is_assignable(s, t) {
        Result::Ok(())
    } else {
        let source = crate::ty::span_of(s);
        let target = crate::ty::span_of(t);
        Result::Err(crate::errors::Error::NotAssignable { span, source, target })
    }
}

pub proof fn lemma_all_target_members_matched(ss: Seq<TypeElementV>, ts: Seq<TypeElementV>)
    ensures
        all_target_members_matched(ss, ts) == (forall|i: int|
            0 <= i < ts.len() ==> some_member_satisfies(ss, ts[i])),
    decreases ts.len(),
{
    if ts.len() > 0 {
        lemma_all_target_members_matched(ss, ts.drop_first());
        assert forall|i: int|
            0 <= i < ts.len() && all_target_members_matched(ss, ts) implies some_member_satisfies(
            ss,
            ts[i],
        ) by {
            if i > 0 {
                assert(ts.drop_first()[i - 1] == ts[i]);
            }
        }
        if forall|i: int| 0 <= i < ts.len() ==> some_member_satisfies(ss, ts[i]) {
            assert forall|i: int| 0 <= i < ts.drop_first().len() implies some_member_satisfies(
                ss,
                ts.drop_first()[i],
            ) by {
                assert(ts.drop_first()[i] == ts[i + 1]);
            }
        }
    }
}

} // verus!
