//! Capture-free substitution of type parameters by actual type
//! arguments, used by generic instantiation (§4.4).

use vstd::prelude::*;

use crate::assign::{
    elem_size, elems_size, lemma_elems_size_mem, lemma_elems_size_tail, lemma_params_size_mem,
    lemma_params_size_tail, lemma_tys_size_mem, lemma_tys_size_tail, opt_ty_size, param_size,
    params_size, ty_size,
};
use crate::scope::assoc_ty;
use crate::ty::{
    dup_key, dup_string, dup_ty, view_elem, view_elems, view_opt_ty, view_param, view_params,
    view_ty, view_type_params, view_tys, FnParam, FnParamV, PropKey, Type, TypeElement,
    TypeElementV, TypeParamDecl, TypeParamDeclV, TypeV,
};

verus! {

/// Is `n` one of the names the type parameters bind?
pub open spec fn binds_name(tps: Seq<TypeParamDeclV>, n: Seq<char>) -> bool {
    exists|i: int| 0 <= i < tps.len() && (#[trigger] tps[i]).name == n
}

/// The map without the entries a nested binder shadows.
pub open spec fn drop_shadowed(
    m: Seq<(Seq<char>, TypeV)>,
    tps: Seq<TypeParamDeclV>,
) -> Seq<(Seq<char>, TypeV)>
    decreases m.len(),
{
    if m.len() == 0 {
        Seq::empty()
    } else {
        (if binds_name(tps, m[0].0) {
            Seq::empty()
        } else {
            seq![m[0]]
        }) + drop_shadowed(m.drop_first(), tps)
    }
}

/// Substitution: a type parameter reference — a `Param` node, or a
/// bare `Ref` head — whose name the map binds is replaced by the
/// actual; binders shadow their own names; everything else is
/// rebuilt.
pub open spec fn subst_ty(m: Seq<(Seq<char>, TypeV)>, t: TypeV) -> TypeV
    decreases ty_size(t), 1nat,
{
    if m.len() == 0 {
        t
    } else {
        match t {
            TypeV::Param { name, .. } => match assoc_ty(m, name) {
                Option::Some(u) => u,
                Option::None => t,
            },
            TypeV::Ref { span, name, member, type_args } => if (member is None) && type_args.len()
                == 0 {
                match assoc_ty(m, name) {
                    Option::Some(u) => u,
                    Option::None => t,
                }
            } else {
                proof {
                    crate::assign::lemma_ref_args_smaller(t);
                }
                TypeV::Ref { span, name, member, type_args: subst_tys(m, type_args) }
            },
            TypeV::Array { span, elem } => TypeV::Array {
                span,
                elem: Box::new(subst_ty(m, *elem)),
            },
            TypeV::Tuple { span, elems } => {
                proof {
                    crate::assign::lemma_tuple_elems_smaller(t);
                }
                TypeV::Tuple { span, elems: subst_tys(m, elems) }
            },
            TypeV::Union { span, types } => {
                proof {
                    crate::assign::lemma_union_members_smaller(t);
                }
                TypeV::Union { span, types: subst_tys(m, types) }
            },
            TypeV::Intersection { span, types } => {
                proof {
                    crate::assign::lemma_inter_members_smaller(t);
                }
                TypeV::Intersection { span, types: subst_tys(m, types) }
            },
            TypeV::Function { span, params, type_params, ret } => {
                let m2 = drop_shadowed(m, type_params);
                proof {
                    lemma_drop_shadowed_len(m, type_params);
                }
                TypeV::Function {
                    span,
                    params: subst_params(m2, params),
                    type_params,
                    ret: Box::new(subst_ty(m2, *ret)),
                }
            },
            TypeV::Constructor { span, params, type_params, ret } => {
                let m2 = drop_shadowed(m, type_params);
                proof {
                    lemma_drop_shadowed_len(m, type_params);
                }
                TypeV::Constructor {
                    span,
                    params: subst_params(m2, params),
                    type_params,
                    ret: Box::new(subst_ty(m2, *ret)),
                }
            },
            TypeV::TypeLit { span, members } => {
                proof {
                    crate::assign::lemma_struct_members_smaller(t);
                }
                TypeV::TypeLit { span, members: subst_elems(m, members) }
            },
            TypeV::Alias { span, ty, type_params } => TypeV::Alias {
                span,
                ty: Box::new(subst_ty(m, *ty)),
                type_params,
            },
            _ => t,
        }
    }
}

pub open spec fn subst_tys(m: Seq<(Seq<char>, TypeV)>, ts: Seq<TypeV>) -> Seq<TypeV>
    decreases crate::assign::tys_size(ts), 1nat,
{
    if ts.len() == 0 {
        Seq::empty()
    } else {
        proof {
            lemma_tys_size_mem(ts, 0);
            lemma_tys_size_tail(ts);
        }
        seq![subst_ty(m, ts[0])] + subst_tys(m, ts.drop_first())
    }
}

pub open spec fn subst_opt(
    m: Seq<(Seq<char>, TypeV)>,
    t: Option<Box<TypeV>>,
) -> Option<Box<TypeV>>
    decreases opt_ty_size(t), 1nat,
{
    match t {
        Option::Some(b) => Option::Some(Box::new(subst_ty(m, *b))),
        Option::None => Option::None,
    }
}

pub open spec fn subst_param(m: Seq<(Seq<char>, TypeV)>, p: FnParamV) -> FnParamV
    decreases param_size(p), 1nat,
{
    FnParamV { span: p.span, name: p.name, optional: p.optional, ty: subst_opt(m, p.ty) }
}

pub open spec fn subst_params(m: Seq<(Seq<char>, TypeV)>, ps: Seq<FnParamV>) -> Seq<FnParamV>
    decreases params_size(ps), 1nat,
{
    if ps.len() == 0 {
        Seq::empty()
    } else {
        proof {
            lemma_params_size_mem(ps, 0);
            lemma_params_size_tail(ps);
        }
        seq![subst_param(m, ps[0])] + subst_params(m, ps.drop_first())
    }
}

pub open spec fn subst_elem(m: Seq<(Seq<char>, TypeV)>, e: TypeElementV) -> TypeElementV
    decreases elem_size(e), 1nat,
{
    match e {
        TypeElementV::Property { span, key, optional, readonly, ty } => TypeElementV::Property {
            span,
            key,
            optional,
            readonly,
            ty: subst_opt(m, ty),
        },
        TypeElementV::Method { span, key, params, type_params, ret } => {
            let m2 = drop_shadowed(m, type_params);
            proof {
                lemma_drop_shadowed_len(m, type_params);
            }
            TypeElementV::Method {
                span,
                key,
                params: subst_params(m2, params),
                type_params,
                ret: subst_opt(m2, ret),
            }
        },
        TypeElementV::CallSig { span, params, type_params, ret } => {
            let m2 = drop_shadowed(m, type_params);
            proof {
                lemma_drop_shadowed_len(m, type_params);
            }
            TypeElementV::CallSig {
                span,
                params: subst_params(m2, params),
                type_params,
                ret: subst_opt(m2, ret),
            }
        },
        TypeElementV::ConstructSig { span, params, type_params, ret } => {
            let m2 = drop_shadowed(m, type_params);
            proof {
                lemma_drop_shadowed_len(m, type_params);
            }
            TypeElementV::ConstructSig {
                span,
                params: subst_params(m2, params),
                type_params,
                ret: subst_opt(m2, ret),
            }
        },
    }
}

pub open spec fn subst_elems(
    m: Seq<(Seq<char>, TypeV)>,
    es: Seq<TypeElementV>,
) -> Seq<TypeElementV>
    decreases elems_size(es), 1nat,
{
    if es.len() == 0 {
        Seq::empty()
    } else {
        proof {
            lemma_elems_size_mem(es, 0);
            lemma_elems_size_tail(es);
        }
        seq![subst_elem(m, es[0])] + subst_elems(m, es.drop_first())
    }
}

pub proof fn lemma_drop_shadowed_len(m: Seq<(Seq<char>, TypeV)>, tps: Seq<TypeParamDeclV>)
    ensures
        drop_shadowed(m, tps).len() <= m.len(),
    decreases m.len(),
{
    if m.len() > 0 {
        lemma_drop_shadowed_len(m.drop_first(), tps);
    }
}

// ------------------------------------------------------------------
// The executable substitution.
// ------------------------------------------------------------------

/// The view of a substitution map.
pub open spec fn map_v(m: Seq<(String, Type)>) -> Seq<(Seq<char>, TypeV)> {
    crate::scope::view_ty_entries(m)
}

fn binds_name_exec(tps: &Vec<TypeParamDecl>, n: &String) -> (r: bool)
    ensures
        r == binds_name(view_type_params(tps@), n@),
{
    proof {
        crate::ty::lemma_view_type_params(tps@);
    }
    let k = tps.len();
    let mut i: usize = 0;
    while i < k
        invariant
            k == tps@.len(),
            i <= k,
            forall|j: int| 0 <= j < i ==> view_type_params(tps@)[j].name != n@,
        decreases k - i,
    {
        proof {
            crate::ty::lemma_view_type_params(tps@);
        }
        if tps[i].name == *n {
            proof {
                assert(view_type_params(tps@)[i as int].name == n@);
            }
            return true;
        }
        i += 1;
    }
    proof {
        crate::ty::lemma_view_type_params(tps@);
        assert forall|j: int| 0 <= j < view_type_params(tps@).len() implies view_type_params(
            tps@,
        )[j].name != n@ by {}
    }
    false
}

/// The map without the entries `tps` shadows, from index `i` on.
fn drop_shadowed_from(
    m: &Vec<(String, Type)>,
    tps: &Vec<TypeParamDecl>,
    i: usize,
) -> (r: Vec<(String, Type)>)
    requires
        i <= m@.len(),
    ensures
        map_v(r@) == drop_shadowed(map_v(m@).skip(i as int), view_type_params(tps@)),
    decreases m@.len() - i,
{
    if i == m.len() {
        let out: Vec<(String, Type)> = Vec::new();
        proof {
            assert(map_v(m@).skip(i as int) =~= Seq::<(Seq<char>, TypeV)>::empty());
            assert(map_v(out@) =~= Seq::<(Seq<char>, TypeV)>::empty());
        }
        return out;
    }
    proof {
        assert(map_v(m@).skip(i as int)[0] == map_v(m@)[i as int]);
        assert(map_v(m@)[i as int] == (m@[i as int].0@, view_ty(m@[i as int].1)));
        assert(map_v(m@).skip(i as int).drop_first() =~= map_v(m@).skip(i + 1));
    }
    let rest = drop_shadowed_from(m, tps, i + 1);
    if binds_name_exec(tps, &m[i].0) {
        proof {
            assert(map_v(rest@) =~= drop_shadowed(
                map_v(m@).skip(i as int),
                view_type_params(tps@),
            ));
        }
        rest
    } else {
        let ghost restv = rest@;
        let h = (dup_string(&m[i].0), dup_ty(&m[i].1));
        let mut out = rest;
        out.insert(0, h);
        proof {
            assert(out@.drop_first() =~= restv);
            assert(map_v(out@) =~= seq![(m@[i as int].0@, view_ty(m@[i as int].1))] + map_v(
                restv,
            ));
        }
        out
    }
}

/// Substitutes into one type.
pub fn subst_ty_exec(m: &Vec<(String, Type)>, t: &Type) -> (r: Type)
    ensures
        r@ == subst_ty(map_v(m@), t@),
    decreases ty_size(t@), 3nat,
{
    proof {
        broadcast use crate::ty::lemma_view_keeps_tag;

    }
    if m.len() == 0 {
        proof {
            assert(map_v(m@) =~= Seq::<(Seq<char>, TypeV)>::empty());
        }
        return dup_ty(t);
    }
    match t {
        Type::Param { name, .. } => match crate::scope::lookup_ty(m, name) {
            Option::Some(u) => u,
            Option::None => dup_ty(t),
        },
        Type::Ref { span, name, member, type_args } => {
            let bare = match member {
                Option::Some(..) => false,
                Option::None => type_args.len() == 0,
            };
            proof {
                crate::ty::lemma_view_tys(type_args@);
            }
            if bare {
                match crate::scope::lookup_ty(m, name) {
                    Option::Some(u) => u,
                    Option::None => dup_ty(t),
                }
            } else {
                proof {
                    crate::assign::lemma_ref_args_smaller(t@);
                    assert(view_tys(type_args@).skip(0) =~= view_tys(type_args@));
                }
                let ta = subst_tys_from(m, type_args, 0);
                Type::Ref {
                    span: *span,
                    name: dup_string(name),
                    member: match member {
                        Option::Some(x) => Option::Some(dup_string(x)),
                        Option::None => Option::None,
                    },
                    type_args: ta,
                }
            }
        },
        Type::Array { span, elem } => Type::Array {
            span: *span,
            elem: Box::new(subst_ty_exec(m, elem)),
        },
        Type::Tuple { span, elems } => {
            proof {
                crate::assign::lemma_tuple_elems_smaller(t@);
                assert(view_tys(elems@).skip(0) =~= view_tys(elems@));
            }
            Type::Tuple { span: *span, elems: subst_tys_from(m, elems, 0) }
        },
        Type::Union { span, types } => {
            proof {
                crate::assign::lemma_union_members_smaller(t@);
                assert(view_tys(types@).skip(0) =~= view_tys(types@));
            }
            Type::Union { span: *span, types: subst_tys_from(m, types, 0) }
        },
        Type::Intersection { span, types } => {
            proof {
                crate::assign::lemma_inter_members_smaller(t@);
                assert(view_tys(types@).skip(0) =~= view_tys(types@));
            }
            Type::Intersection { span: *span, types: subst_tys_from(m, types, 0) }
        },
        Type::Function { span, params, type_params, ret } => {
            proof {
                assert(map_v(m@).skip(0) =~= map_v(m@));
                lemma_drop_shadowed_len(map_v(m@), view_type_params(type_params@));
                assert(view_params(params@).skip(0) =~= view_params(params@));
            }
            let m2 = drop_shadowed_from(m, type_params, 0);
            let ps = subst_params_from(&m2, params, 0);
            let rt = subst_ty_exec(&m2, ret);
            Type::Function {
                span: *span,
                params: ps,
                type_params: crate::ty::dup_type_params(type_params),
                ret: Box::new(rt),
            }
        },
        Type::Constructor { span, params, type_params, ret } => {
            proof {
                assert(map_v(m@).skip(0) =~= map_v(m@));
                lemma_drop_shadowed_len(map_v(m@), view_type_params(type_params@));
                assert(view_params(params@).skip(0) =~= view_params(params@));
            }
            let m2 = drop_shadowed_from(m, type_params, 0);
            let ps = subst_params_from(&m2, params, 0);
            let rt = subst_ty_exec(&m2, ret);
            Type::Constructor {
                span: *span,
                params: ps,
                type_params: crate::ty::dup_type_params(type_params),
                ret: Box::new(rt),
            }
        },
        Type::TypeLit { span, members } => {
            proof {
                crate::assign::lemma_struct_members_smaller(t@);
                assert(view_elems(members@).skip(0) =~= view_elems(members@));
            }
            Type::TypeLit { span: *span, members: subst_elems_from(m, members, 0) }
        },
        Type::Alias { span, ty, type_params } => Type::Alias {
            span: *span,
            ty: Box::new(subst_ty_exec(m, ty)),
            type_params: crate::ty::dup_type_params(type_params),
        },
        _ => {
            proof {
                match t {
                    Type::Keyword { .. } => {},
                    Type::Lit { .. } => {},
                    Type::Class { .. } => {},
                    Type::Interface { .. } => {},
                    Type::Enum { .. } => {},
                    Type::EnumVariant { .. } => {},
                    Type::This { .. } => {},
                    Type::Query { .. } => {},
                    _ => {},
                }
            }
            dup_ty(t)
        },
    }
}

fn subst_tys_from(m: &Vec<(String, Type)>, ts: &Vec<Type>, i: usize) -> (r: Vec<Type>)
    requires
        i <= ts@.len(),
    ensures
        view_tys(r@) == subst_tys(map_v(m@), view_tys(ts@).skip(i as int)),
    decreases crate::assign::tys_size(view_tys(ts@).skip(i as int)), 4nat,
{
    proof {
        crate::ty::lemma_view_tys(ts@);
    }
    if i == ts.len() {
        let out: Vec<Type> = Vec::new();
        proof {
            assert(view_tys(ts@).skip(i as int) =~= Seq::<TypeV>::empty());
            assert(view_tys(out@) =~= Seq::<TypeV>::empty());
        }
        return out;
    }
    proof {
        assert(view_tys(ts@).skip(i as int)[0] == view_tys(ts@)[i as int]);
        assert(view_tys(ts@).skip(i as int).drop_first() =~= view_tys(ts@).skip(i + 1));
        lemma_tys_size_mem(view_tys(ts@).skip(i as int), 0);
        lemma_tys_size_tail(view_tys(ts@).skip(i as int));
    }
    let h = subst_ty_exec(m, &ts[i]);
    let rest = subst_tys_from(m, ts, i + 1);
    let ghost restv = rest@;
    let ghost hv = h@;
    let mut out = rest;
    out.insert(0, h);
    proof {
        assert(out@[0]@ == hv);
        assert(out@.drop_first() =~= restv);
        assert(view_tys(out@) =~= seq![hv] + view_tys(restv));
    }
    out
}

fn subst_opt_exec(m: &Vec<(String, Type)>, t: &Option<Box<Type>>) -> (r: Option<Box<Type>>)
    ensures
        view_opt_ty(r) == subst_opt(map_v(m@), view_opt_ty(*t)),
    decreases opt_ty_size(view_opt_ty(*t)), 4nat,
{
    match t {
        Option::Some(b) => Option::Some(Box::new(subst_ty_exec(m, b))),
        Option::None => Option::None,
    }
}

fn subst_params_from(
    m: &Vec<(String, Type)>,
    ps: &Vec<FnParam>,
    i: usize,
) -> (r: Vec<FnParam>)
    requires
        i <= ps@.len(),
    ensures
        view_params(r@) == subst_params(map_v(m@), view_params(ps@).skip(i as int)),
    decreases params_size(view_params(ps@).skip(i as int)), 5nat,
{
    proof {
        crate::ty::lemma_view_params(ps@);
    }
    if i == ps.len() {
        let out: Vec<FnParam> = Vec::new();
        proof {
            assert(view_params(ps@).skip(i as int) =~= Seq::<FnParamV>::empty());
            assert(view_params(out@) =~= Seq::<FnParamV>::empty());
        }
        return out;
    }
    proof {
        assert(view_params(ps@).skip(i as int)[0] == view_params(ps@)[i as int]);
        assert(view_params(ps@).skip(i as int).drop_first() =~= view_params(ps@).skip(i + 1));
        lemma_params_size_mem(view_params(ps@).skip(i as int), 0);
        lemma_params_size_tail(view_params(ps@).skip(i as int));
        crate::assign::lemma_param_ty_size(view_params(ps@)[i as int]);
    }
    let p = &ps[i];
    let h = FnParam {
        span: p.span,
        name: dup_string(&p.name),
        optional: p.optional,
        ty: subst_opt_exec(m, &p.ty),
    };
    let rest = subst_params_from(m, ps, i + 1);
    let ghost restv = rest@;
    let ghost hv = view_param(h);
    let mut out = rest;
    out.insert(0, h);
    proof {
        assert(view_param(out@[0]) == hv);
        assert(out@.drop_first() =~= restv);
        assert(hv == subst_param(map_v(m@), view_params(ps@)[i as int]));
        assert(view_params(out@) =~= seq![hv] + view_params(restv));
    }
    out
}

fn subst_elem_exec(m: &Vec<(String, Type)>, e: &TypeElement) -> (r: TypeElement)
    ensures
        view_elem(r) == subst_elem(map_v(m@), view_elem(*e)),
    decreases elem_size(view_elem(*e)), 6nat,
{
    match e {
        TypeElement::Property { span, key, optional, readonly, ty } => TypeElement::Property {
            span: *span,
            key: dup_key(key),
            optional: *optional,
            readonly: *readonly,
            ty: subst_opt_exec(m, ty),
        },
        TypeElement::Method { span, key, params, type_params, ret } => {
            proof {
                assert(view_params(params@).skip(0) =~= view_params(params@));
                lemma_drop_shadowed_len(map_v(m@), view_type_params(type_params@));
            }
            let m2 = drop_shadowed_from(m, type_params, 0);
            proof {
                assert(map_v(m@).skip(0) =~= map_v(m@));
            }
            TypeElement::Method {
                span: *span,
                key: dup_key(key),
                params: subst_params_from(&m2, params, 0),
                type_params: crate::ty::dup_type_params(type_params),
                ret: subst_opt_exec(&m2, ret),
            }
        },
        TypeElement::CallSig { span, params, type_params, ret } => {
            proof {
                assert(view_params(params@).skip(0) =~= view_params(params@));
                lemma_drop_shadowed_len(map_v(m@), view_type_params(type_params@));
            }
            let m2 = drop_shadowed_from(m, type_params, 0);
            proof {
                assert(map_v(m@).skip(0) =~= map_v(m@));
            }
            TypeElement::CallSig {
                span: *span,
                params: subst_params_from(&m2, params, 0),
                type_params: crate::ty::dup_type_params(type_params),
                ret: subst_opt_exec(&m2, ret),
            }
        },
        TypeElement::ConstructSig { span, params, type_params, ret } => {
            proof {
                assert(view_params(params@).skip(0) =~= view_params(params@));
                lemma_drop_shadowed_len(map_v(m@), view_type_params(type_params@));
            }
            let m2 = drop_shadowed_from(m, type_params, 0);
            proof {
                assert(map_v(m@).skip(0) =~= map_v(m@));
            }
            TypeElement::ConstructSig {
                span: *span,
                params: subst_params_from(&m2, params, 0),
                type_params: crate::ty::dup_type_params(type_params),
                ret: subst_opt_exec(&m2, ret),
            }
        },
    }
}

fn subst_elems_from(
    m: &Vec<(String, Type)>,
    es: &Vec<TypeElement>,
    i: usize,
) -> (r: Vec<TypeElement>)
    requires
        i <= es@.len(),
    ensures
        view_elems(r@) == subst_elems(map_v(m@), view_elems(es@).skip(i as int)),
    decreases elems_size(view_elems(es@).skip(i as int)), 7nat,
{
    proof {
        crate::ty::lemma_view_elems(es@);
    }
    if i == es.len() {
        let out: Vec<TypeElement> = Vec::new();
        proof {
            assert(view_elems(es@).skip(i as int) =~= Seq::<TypeElementV>::empty());
            assert(view_elems(out@) =~= Seq::<TypeElementV>::empty());
        }
        return out;
    }
    proof {
        assert(view_elems(es@).skip(i as int)[0] == view_elems(es@)[i as int]);
        assert(view_elems(es@).skip(i as int).drop_first() =~= view_elems(es@).skip(i + 1));
        lemma_elems_size_mem(view_elems(es@).skip(i as int), 0);
        lemma_elems_size_tail(view_elems(es@).skip(i as int));
    }
    let h = subst_elem_exec(m, &es[i]);
    let rest = subst_elems_from(m, es, i + 1);
    let ghost restv = rest@;
    let ghost hv = view_elem(h);
    let mut out = rest;
    out.insert(0, h);
    proof {
        assert(view_elem(out@[0]) == hv);
        assert(out@.drop_first() =~= restv);
        assert(view_elems(out@) =~= seq![hv] + view_elems(restv));
    }
    out
}

} // verus!
