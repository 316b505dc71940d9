//! The type model: an immutable algebraic description of the types the
//! analyzer manipulates, together with its ghost mirror used in contracts.
//!
//! Every variant carries a source span, used only for error attribution;
//! structural identity always ignores spans.

use vstd::prelude::*;

verus! {

/// A half-open range of byte offsets in the source text.
#[derive(Clone, Copy, Debug, PartialEq, Eq, Structural)]
pub struct Span {
    pub lo: u32,
    pub hi: u32,
}

impl Span {
    pub fn new(lo: u32, hi: u32) -> (s: Span)
        ensures
            s == (Span { lo, hi }),
    {
        Span { lo, hi }
    }

    /// The span used where no source position is meaningful.
    pub fn dummy() -> (s: Span)
        ensures
            s == (Span { lo: 0, hi: 0 }),
    {
        Span { lo: 0, hi: 0 }
    }
}

/// The keyword (primitive) types.
#[derive(Clone, Copy, Debug, PartialEq, Eq, Structural)]
pub enum KeywordKind {
    Any,
    Number,
    Str,
    Boolean,
    Null,
    Undefined,
    Void,
    Never,
    Symbol,
    Object,
    Unknown,
}

/// A literal value: the payload of a singleton (literal) type and of a
/// constant enum-member initializer.
#[derive(Debug)]
pub enum LitValue {
    Bool(bool),
    Num(i64),
    Str(String),
}

/// Ghost mirror of `LitValue`.
pub ghost enum LitV {
    Bool(bool),
    Num(i64),
    Str(Seq<char>),
}

impl View for LitValue {
    type V = LitV;

    open spec fn view(&self) -> LitV {
        match self {
            LitValue::Bool(b) => LitV::Bool(*b),
            LitValue::Num(n) => LitV::Num(*n),
            LitValue::Str(s) => LitV::Str(s@),
        }
    }
}

/// A non-computed property key: an identifier, a string, or a number.
#[derive(Debug)]
pub enum PropKey {
    Ident { span: Span, name: String },
    StrKey { span: Span, value: String },
    NumKey { span: Span, value: i64 },
}

pub ghost enum PropKeyV {
    Ident { span: Span, name: Seq<char> },
    StrKey { span: Span, value: Seq<char> },
    NumKey { span: Span, value: i64 },
}

impl View for PropKey {
    type V = PropKeyV;

    open spec fn view(&self) -> PropKeyV {
        match self {
            PropKey::Ident { span, name } => PropKeyV::Ident { span: *span, name: name@ },
            PropKey::StrKey { span, value } => PropKeyV::StrKey { span: *span, value: value@ },
            PropKey::NumKey { span, value } => PropKeyV::NumKey { span: *span, value: *value },
        }
    }
}

/// One member of an enum declaration: a name and an optional constant
/// initializer.
#[derive(Debug)]
pub struct EnumMember {
    pub span: Span,
    pub name: String,
    pub init: Option<LitValue>,
}

pub ghost struct EnumMemberV {
    pub span: Span,
    pub name: Seq<char>,
    pub init: Option<LitV>,
}

impl View for EnumMember {
    type V = EnumMemberV;

    open spec fn view(&self) -> EnumMemberV {
        EnumMemberV {
            span: self.span,
            name: self.name@,
            init: match self.init {
                Option::Some(l) => Option::Some(l@),
                Option::None => Option::None,
            },
        }
    }
}

/// A formal parameter of a function type.
#[derive(Debug)]
pub struct FnParam {
    pub span: Span,
    pub name: String,
    pub optional: bool,
    pub ty: Option<Box<Type>>,
}

pub ghost struct FnParamV {
    pub span: Span,
    pub name: Seq<char>,
    pub optional: bool,
    pub ty: Option<Box<TypeV>>,
}

/// A declared type parameter.
#[derive(Debug)]
pub struct TypeParamDecl {
    pub span: Span,
    pub name: String,
    pub constraint: Option<Box<Type>>,
    pub default: Option<Box<Type>>,
}

pub ghost struct TypeParamDeclV {
    pub span: Span,
    pub name: Seq<char>,
    pub constraint: Option<Box<TypeV>>,
    pub default: Option<Box<TypeV>>,
}

/// A member of an interface body, a type literal, or a class type.
#[derive(Debug)]
pub enum TypeElement {
    Property {
        span: Span,
        key: PropKey,
        optional: bool,
        readonly: bool,
        ty: Option<Box<Type>>,
    },
    Method {
        span: Span,
        key: PropKey,
        params: Vec<FnParam>,
        type_params: Vec<TypeParamDecl>,
        ret: Option<Box<Type>>,
    },
    CallSig {
        span: Span,
        params: Vec<FnParam>,
        type_params: Vec<TypeParamDecl>,
        ret: Option<Box<Type>>,
    },
    ConstructSig {
        span: Span,
        params: Vec<FnParam>,
        type_params: Vec<TypeParamDecl>,
        ret: Option<Box<Type>>,
    },
}

pub ghost enum TypeElementV {
    Property {
        span: Span,
        key: PropKeyV,
        optional: bool,
        readonly: bool,
        ty: Option<Box<TypeV>>,
    },
    Method {
        span: Span,
        key: PropKeyV,
        params: Seq<FnParamV>,
        type_params: Seq<TypeParamDeclV>,
        ret: Option<Box<TypeV>>,
    },
    CallSig {
        span: Span,
        params: Seq<FnParamV>,
        type_params: Seq<TypeParamDeclV>,
        ret: Option<Box<TypeV>>,
    },
    ConstructSig {
        span: Span,
        params: Seq<FnParamV>,
        type_params: Seq<TypeParamDeclV>,
        ret: Option<Box<TypeV>>,
    },
}

/// A structural type. `Ref` and `Query` are the unresolved (syntactic)
/// forms that type expansion rewrites; everything else is resolved.
#[derive(Debug)]
pub enum Type {
    Keyword { span: Span, kind: KeywordKind },
    Lit { span: Span, lit: LitValue },
    Array { span: Span, elem: Box<Type> },
    Tuple { span: Span, elems: Vec<Type> },
    Union { span: Span, types: Vec<Type> },
    Intersection { span: Span, types: Vec<Type> },
    Function { span: Span, params: Vec<FnParam>, type_params: Vec<TypeParamDecl>, ret: Box<Type> },
    Constructor { span: Span, params: Vec<FnParam>, type_params: Vec<TypeParamDecl>, ret: Box<Type> },
    TypeLit { span: Span, members: Vec<TypeElement> },
    Class { span: Span, name: Option<String>, body: Vec<TypeElement> },
    Interface { span: Span, name: String, type_params: Vec<TypeParamDecl>, body: Vec<TypeElement>, parents: Vec<String> },
    Enum { span: Span, name: String, members: Vec<EnumMember> },
    EnumVariant { span: Span, enum_name: String, name: String },
    Param { span: Span, name: String, constraint: Option<Box<Type>>, default: Option<Box<Type>> },
    Alias { span: Span, ty: Box<Type>, type_params: Vec<TypeParamDecl> },
    Ref { span: Span, name: String, member: Option<String>, type_args: Vec<Type> },
    This { span: Span },
    Query { span: Span, name: String },
}

pub ghost enum TypeV {
    Keyword { span: Span, kind: KeywordKind },
    Lit { span: Span, lit: LitV },
    Array { span: Span, elem: Box<TypeV> },
    Tuple { span: Span, elems: Seq<TypeV> },
    Union { span: Span, types: Seq<TypeV> },
    Intersection { span: Span, types: Seq<TypeV> },
    Function { span: Span, params: Seq<FnParamV>, type_params: Seq<TypeParamDeclV>, ret: Box<TypeV> },
    Constructor { span: Span, params: Seq<FnParamV>, type_params: Seq<TypeParamDeclV>, ret: Box<TypeV> },
    TypeLit { span: Span, members: Seq<TypeElementV> },
    Class { span: Span, name: Option<Seq<char>>, body: Seq<TypeElementV> },
    Interface { span: Span, name: Seq<char>, type_params: Seq<TypeParamDeclV>, body: Seq<TypeElementV>, parents: Seq<Seq<char>> },
    Enum { span: Span, name: Seq<char>, members: Seq<EnumMemberV> },
    EnumVariant { span: Span, enum_name: Seq<char>, name: Seq<char> },
    Param { span: Span, name: Seq<char>, constraint: Option<Box<TypeV>>, default: Option<Box<TypeV>> },
    Alias { span: Span, ty: Box<TypeV>, type_params: Seq<TypeParamDeclV> },
    Ref { span: Span, name: Seq<char>, member: Option<Seq<char>>, type_args: Seq<TypeV> },
    This { span: Span },
    Query { span: Span, name: Seq<char> },
}

pub open spec fn view_opt_ty(t: Option<Box<Type>>) -> Option<Box<TypeV>>
    decreases t,
{
    match t {
        Option::Some(b) => Option::Some(Box::new(view_ty(*b))),
        Option::None => Option::None,
    }
}

pub open spec fn view_param(p: FnParam) -> FnParamV
    decreases p,
{
    FnParamV { span: p.span, name: p.name@, optional: p.optional, ty: view_opt_ty(p.ty) }
}

pub open spec fn view_params(ps: Seq<FnParam>) -> Seq<FnParamV>
    decreases ps,
{
    if ps.len() == 0 {
        Seq::empty()
    } else {
        seq![view_param(ps[0])] + view_params(ps.drop_first())
    }
}

pub open spec fn view_type_param(p: TypeParamDecl) -> TypeParamDeclV
    decreases p,
{
    TypeParamDeclV {
        span: p.span,
        name: p.name@,
        constraint: view_opt_ty(p.constraint),
        default: view_opt_ty(p.default),
    }
}

pub open spec fn view_type_params(ps: Seq<TypeParamDecl>) -> Seq<TypeParamDeclV>
    decreases ps,
{
    if ps.len() == 0 {
        Seq::empty()
    } else {
        seq![view_type_param(ps[0])] + view_type_params(ps.drop_first())
    }
}

pub open spec fn view_elem(e: TypeElement) -> TypeElementV
    decreases e,
{
    match e {
        TypeElement::Property { span, key, optional, readonly, ty } => TypeElementV::Property {
            span,
            key: key@,
            optional,
            readonly,
            ty: view_opt_ty(ty),
        },
        TypeElement::Method { span, key, params, type_params, ret } => TypeElementV::Method {
            span,
            key: key@,
            params: view_params(params@),
            type_params: view_type_params(type_params@),
            ret: view_opt_ty(ret),
        },
        TypeElement::CallSig { span, params, type_params, ret } => TypeElementV::CallSig {
            span,
            params: view_params(params@),
            type_params: view_type_params(type_params@),
            ret: view_opt_ty(ret),
        },
        TypeElement::ConstructSig { span, params, type_params, ret } => TypeElementV::ConstructSig {
            span,
            params: view_params(params@),
            type_params: view_type_params(type_params@),
            ret: view_opt_ty(ret),
        },
    }
}

pub open spec fn view_elems(es: Seq<TypeElement>) -> Seq<TypeElementV>
    decreases es,
{
    if es.len() == 0 {
        Seq::empty()
    } else {
        seq![view_elem(es[0])] + view_elems(es.drop_first())
    }
}

pub open spec fn view_enum_members(ms: Seq<EnumMember>) -> Seq<EnumMemberV> {
    ms.map_values(|m: EnumMember| m@)
}

pub open spec fn view_strings(ss: Seq<String>) -> Seq<Seq<char>> {
    ss.map_values(|s: String| s@)
}

pub open spec fn view_ty(t: Type) -> TypeV
    decreases t,
{
    match t {
        Type::Keyword { span, kind } => TypeV::Keyword { span, kind },
        Type::Lit { span, lit } => TypeV::Lit { span, lit: lit@ },
        Type::Array { span, elem } => TypeV::Array { span, elem: Box::new(view_ty(*elem)) },
        Type::Tuple { span, elems } => TypeV::Tuple { span, elems: view_tys(elems@) },
        Type::Union { span, types } => TypeV::Union { span, types: view_tys(types@) },
        Type::Intersection { span, types } => TypeV::Intersection {
            span,
            types: view_tys(types@),
        },
        Type::Function { span, params, type_params, ret } => TypeV::Function {
            span,
            params: view_params(params@),
            type_params: view_type_params(type_params@),
            ret: Box::new(view_ty(*ret)),
        },
        Type::Constructor { span, params, type_params, ret } => TypeV::Constructor {
            span,
            params: view_params(params@),
            type_params: view_type_params(type_params@),
            ret: Box::new(view_ty(*ret)),
        },
        Type::TypeLit { span, members } => TypeV::TypeLit { span, members: view_elems(members@) },
        Type::Class { span, name, body } => TypeV::Class {
            span,
            name: match name {
                Option::Some(n) => Option::Some(n@),
                Option::None => Option::None,
            },
            body: view_elems(body@),
        },
        Type::Interface { span, name, type_params, body, parents } => TypeV::Interface {
            span,
            name: name@,
            type_params: view_type_params(type_params@),
            body: view_elems(body@),
            parents: view_strings(parents@),
        },
        Type::Enum { span, name, members } => TypeV::Enum {
            span,
            name: name@,
            members: view_enum_members(members@),
        },
        Type::EnumVariant { span, enum_name, name } => TypeV::EnumVariant {
            span,
            enum_name: enum_name@,
            name: name@,
        },
        Type::Param { span, name, constraint, default } => TypeV::Param {
            span,
            name: name@,
            constraint: view_opt_ty(constraint),
            default: view_opt_ty(default),
        },
        Type::Alias { span, ty, type_params } => TypeV::Alias {
            span,
            ty: Box::new(view_ty(*ty)),
            type_params: view_type_params(type_params@),
        },
        Type::Ref { span, name, member, type_args } => TypeV::Ref {
            span,
            name: name@,
            member: match member {
                Option::Some(m) => Option::Some(m@),
                Option::None => Option::None,
            },
            type_args: view_tys(type_args@),
        },
        Type::This { span } => TypeV::This { span },
        Type::Query { span, name } => TypeV::Query { span, name: name@ },
    }
}

pub open spec fn view_tys(ts: Seq<Type>) -> Seq<TypeV>
    decreases ts,
{
    if ts.len() == 0 {
        Seq::empty()
    } else {
        seq![view_ty(ts[0])] + view_tys(ts.drop_first())
    }
}

impl View for Type {
    type V = TypeV;

    open spec fn view(&self) -> TypeV {
        view_ty(*self)
    }
}

// ------------------------------------------------------------------
// Structural identity.
//
// Two types are structurally identical when they agree after erasing
// every span; the variant that also ignores bound parameter names is
// used for function-structural checks. Erasure is a ghost rewriting,
// and identity is plain equality of the erased values.
// ------------------------------------------------------------------

/// The span every erased node carries.
pub open spec fn dummy_span() -> Span {
    Span { lo: 0, hi: 0 }
}

pub open spec fn strip_lit(l: LitV) -> LitV {
    l
}

pub open spec fn strip_key(k: PropKeyV) -> PropKeyV {
    match k {
        PropKeyV::Ident { name, .. } => PropKeyV::Ident { span: dummy_span(), name },
        PropKeyV::StrKey { value, .. } => PropKeyV::StrKey { span: dummy_span(), value },
        PropKeyV::NumKey { value, .. } => PropKeyV::NumKey { span: dummy_span(), value },
    }
}

pub open spec fn strip_enum_member(m: EnumMemberV) -> EnumMemberV {
    EnumMemberV { span: dummy_span(), name: m.name, init: m.init }
}

pub open spec fn strip_enum_members(ms: Seq<EnumMemberV>) -> Seq<EnumMemberV> {
    ms.map_values(|m: EnumMemberV| strip_enum_member(m))
}

pub open spec fn strip_opt_ty(t: Option<Box<TypeV>>, ig_names: bool) -> Option<Box<TypeV>>
    decreases t,
{
    match t {
        Option::Some(b) => Option::Some(Box::new(strip_ty(*b, ig_names))),
        Option::None => Option::None,
    }
}

pub open spec fn strip_param(p: FnParamV, ig_names: bool) -> FnParamV
    decreases p,
{
    FnParamV {
        span: dummy_span(),
        name: if ig_names {
            Seq::empty()
        } else {
            p.name
        },
        optional: p.optional,
        ty: strip_opt_ty(p.ty, ig_names),
    }
}

pub open spec fn strip_params(ps: Seq<FnParamV>, ig_names: bool) -> Seq<FnParamV>
    decreases ps,
{
    if ps.len() == 0 {
        Seq::empty()
    } else {
        seq![strip_param(ps[0], ig_names)] + strip_params(ps.drop_first(), ig_names)
    }
}

pub open spec fn strip_type_param(p: TypeParamDeclV, ig_names: bool) -> TypeParamDeclV
    decreases p,
{
    TypeParamDeclV {
        span: dummy_span(),
        name: p.name,
        constraint: strip_opt_ty(p.constraint, ig_names),
        default: strip_opt_ty(p.default, ig_names),
    }
}

pub open spec fn strip_type_params(ps: Seq<TypeParamDeclV>, ig_names: bool) -> Seq<TypeParamDeclV>
    decreases ps,
{
    if ps.len() == 0 {
        Seq::empty()
    } else {
        seq![strip_type_param(ps[0], ig_names)] + strip_type_params(ps.drop_first(), ig_names)
    }
}

pub open spec fn strip_elem(e: TypeElementV, ig_names: bool) -> TypeElementV
    decreases e,
{
    match e {
        TypeElementV::Property { key, optional, readonly, ty, .. } => TypeElementV::Property {
            span: dummy_span(),
            key: strip_key(key),
            optional,
            readonly,
            ty: strip_opt_ty(ty, ig_names),
        },
        TypeElementV::Method { key, params, type_params, ret, .. } => TypeElementV::Method {
            span: dummy_span(),
            key: strip_key(key),
            params: strip_params(params, ig_names),
            type_params: strip_type_params(type_params, ig_names),
            ret: strip_opt_ty(ret, ig_names),
        },
        TypeElementV::CallSig { params, type_params, ret, .. } => TypeElementV::CallSig {
            span: dummy_span(),
            params: strip_params(params, ig_names),
            type_params: strip_type_params(type_params, ig_names),
            ret: strip_opt_ty(ret, ig_names),
        },
        TypeElementV::ConstructSig { params, type_params, ret, .. } => TypeElementV::ConstructSig {
            span: dummy_span(),
            params: strip_params(params, ig_names),
            type_params: strip_type_params(type_params, ig_names),
            ret: strip_opt_ty(ret, ig_names),
        },
    }
}

pub open spec fn strip_elems(es: Seq<TypeElementV>, ig_names: bool) -> Seq<TypeElementV>
    decreases es,
{
    if es.len() == 0 {
        Seq::empty()
    } else {
        seq![strip_elem(es[0], ig_names)] + strip_elems(es.drop_first(), ig_names)
    }
}

pub open spec fn strip_ty(t: TypeV, ig_names: bool) -> TypeV
    decreases t,
{
    match t {
        TypeV::Keyword { kind, .. } => TypeV::Keyword { span: dummy_span(), kind },
        TypeV::Lit { lit, .. } => TypeV::Lit { span: dummy_span(), lit: strip_lit(lit) },
        TypeV::Array { elem, .. } => TypeV::Array {
            span: dummy_span(),
            elem: Box::new(strip_ty(*elem, ig_names)),
        },
        TypeV::Tuple { elems, .. } => TypeV::Tuple {
            span: dummy_span(),
            elems: strip_tys(elems, ig_names),
        },
        TypeV::Union { types, .. } => TypeV::Union {
            span: dummy_span(),
            types: strip_tys(types, ig_names),
        },
        TypeV::Intersection { types, .. } => TypeV::Intersection {
            span: dummy_span(),
            types: strip_tys(types, ig_names),
        },
        TypeV::Function { params, type_params, ret, .. } => TypeV::Function {
            span: dummy_span(),
            params: strip_params(params, ig_names),
            type_params: strip_type_params(type_params, ig_names),
            ret: Box::new(strip_ty(*ret, ig_names)),
        },
        TypeV::Constructor { params, type_params, ret, .. } => TypeV::Constructor {
            span: dummy_span(),
            params: strip_params(params, ig_names),
            type_params: strip_type_params(type_params, ig_names),
            ret: Box::new(strip_ty(*ret, ig_names)),
        },
        TypeV::TypeLit { members, .. } => TypeV::TypeLit {
            span: dummy_span(),
            members: strip_elems(members, ig_names),
        },
        TypeV::Class { name, body, .. } => TypeV::Class {
            span: dummy_span(),
            name,
            body: strip_elems(body, ig_names),
        },
        TypeV::Interface { name, type_params, body, parents, .. } => TypeV::Interface {
            span: dummy_span(),
            name,
            type_params: strip_type_params(type_params, ig_names),
            body: strip_elems(body, ig_names),
            parents,
        },
        TypeV::Enum { name, members, .. } => TypeV::Enum {
            span: dummy_span(),
            name,
            members: strip_enum_members(members),
        },
        TypeV::EnumVariant { enum_name, name, .. } => TypeV::EnumVariant {
            span: dummy_span(),
            enum_name,
            name,
        },
        TypeV::Param { name, constraint, default, .. } => TypeV::Param {
            span: dummy_span(),
            name,
            constraint: strip_opt_ty(constraint, ig_names),
            default: strip_opt_ty(default, ig_names),
        },
        TypeV::Alias { ty, type_params, .. } => TypeV::Alias {
            span: dummy_span(),
            ty: Box::new(strip_ty(*ty, ig_names)),
            type_params: strip_type_params(type_params, ig_names),
        },
        TypeV::Ref { name, member, type_args, .. } => TypeV::Ref {
            span: dummy_span(),
            name,
            member,
            type_args: strip_tys(type_args, ig_names),
        },
        TypeV::This { .. } => TypeV::This { span: dummy_span() },
        TypeV::Query { name, .. } => TypeV::Query { span: dummy_span(), name },
    }
}

pub open spec fn strip_tys(ts: Seq<TypeV>, ig_names: bool) -> Seq<TypeV>
    decreases ts,
{
    if ts.len() == 0 {
        Seq::empty()
    } else {
        seq![strip_ty(ts[0], ig_names)] + strip_tys(ts.drop_first(), ig_names)
    }
}

/// Structural identity of two types, ignoring spans.
pub open spec fn same_ty(a: TypeV, b: TypeV) -> bool {
    strip_ty(a, false) == strip_ty(b, false)
}

/// Structural identity ignoring both spans and bound parameter names.
pub open spec fn same_ty_no_names(a: TypeV, b: TypeV) -> bool {
    strip_ty(a, true) == strip_ty(b, true)
}

// ------------------------------------------------------------------
// Pointwise descriptions of the sequence helpers.
// ------------------------------------------------------------------

pub proof fn lemma_view_tys(s: Seq<Type>)
    ensures
        view_tys(s).len() == s.len(),
        forall|i: int| 0 <= i < s.len() ==> view_tys(s)[i] == view_ty(s[i]),
    decreases s.len(),
{
    if s.len() > 0 {
        lemma_view_tys(s.drop_first());
        assert forall|i: int| 0 <= i < s.len() implies view_tys(s)[i] == view_ty(s[i]) by {
            if i > 0 {
                assert(s.drop_first()[i - 1] == s[i]);
            }
        }
    }
}

pub proof fn lemma_view_params(s: Seq<FnParam>)
    ensures
        view_params(s).len() == s.len(),
        forall|i: int| 0 <= i < s.len() ==> view_params(s)[i] == view_param(s[i]),
    decreases s.len(),
{
    if s.len() > 0 {
        lemma_view_params(s.drop_first());
        assert forall|i: int| 0 <= i < s.len() implies view_params(s)[i] == view_param(s[i]) by {
            if i > 0 {
                assert(s.drop_first()[i - 1] == s[i]);
            }
        }
    }
}

pub proof fn lemma_view_type_params(s: Seq<TypeParamDecl>)
    ensures
        view_type_params(s).len() == s.len(),
        forall|i: int| 0 <= i < s.len() ==> view_type_params(s)[i] == view_type_param(s[i]),
    decreases s.len(),
{
    if s.len() > 0 {
        lemma_view_type_params(s.drop_first());
        assert forall|i: int| 0 <= i < s.len() implies view_type_params(s)[i] == view_type_param(
            s[i],
        ) by {
            if i > 0 {
                assert(s.drop_first()[i - 1] == s[i]);
            }
        }
    }
}

pub proof fn lemma_view_elems(s: Seq<TypeElement>)
    ensures
        view_elems(s).len() == s.len(),
        forall|i: int| 0 <= i < s.len() ==> view_elems(s)[i] == view_elem(s[i]),
    decreases s.len(),
{
    if s.len() > 0 {
        lemma_view_elems(s.drop_first());
        assert forall|i: int| 0 <= i < s.len() implies view_elems(s)[i] == view_elem(s[i]) by {
            if i > 0 {
                assert(s.drop_first()[i - 1] == s[i]);
            }
        }
    }
}

pub proof fn lemma_strip_tys(s: Seq<TypeV>, ig: bool)
    ensures
        strip_tys(s, ig).len() == s.len(),
        forall|i: int| 0 <= i < s.len() ==> strip_tys(s, ig)[i] == strip_ty(s[i], ig),
    decreases s.len(),
{
    if s.len() > 0 {
        lemma_strip_tys(s.drop_first(), ig);
        assert forall|i: int| 0 <= i < s.len() implies strip_tys(s, ig)[i] == strip_ty(
            s[i],
            ig,
        ) by {
            if i > 0 {
                assert(s.drop_first()[i - 1] == s[i]);
            }
        }
    }
}

pub proof fn lemma_strip_params(s: Seq<FnParamV>, ig: bool)
    ensures
        strip_params(s, ig).len() == s.len(),
        forall|i: int| 0 <= i < s.len() ==> strip_params(s, ig)[i] == strip_param(s[i], ig),
    decreases s.len(),
{
    if s.len() > 0 {
        lemma_strip_params(s.drop_first(), ig);
        assert forall|i: int| 0 <= i < s.len() implies strip_params(s, ig)[i] == strip_param(
            s[i],
            ig,
        ) by {
            if i > 0 {
                assert(s.drop_first()[i - 1] == s[i]);
            }
        }
    }
}

pub proof fn lemma_strip_type_params(s: Seq<TypeParamDeclV>, ig: bool)
    ensures
        strip_type_params(s, ig).len() == s.len(),
        forall|i: int|
            0 <= i < s.len() ==> strip_type_params(s, ig)[i] == strip_type_param(s[i], ig),
    decreases s.len(),
{
    if s.len() > 0 {
        lemma_strip_type_params(s.drop_first(), ig);
        assert forall|i: int| 0 <= i < s.len() implies strip_type_params(s, ig)[i]
            == strip_type_param(s[i], ig) by {
            if i > 0 {
                assert(s.drop_first()[i - 1] == s[i]);
            }
        }
    }
}

pub proof fn lemma_strip_elems(s: Seq<TypeElementV>, ig: bool)
    ensures
        strip_elems(s, ig).len() == s.len(),
        forall|i: int| 0 <= i < s.len() ==> strip_elems(s, ig)[i] == strip_elem(s[i], ig),
    decreases s.len(),
{
    if s.len() > 0 {
        lemma_strip_elems(s.drop_first(), ig);
        assert forall|i: int| 0 <= i < s.len() implies strip_elems(s, ig)[i] == strip_elem(
            s[i],
            ig,
        ) by {
            if i > 0 {
                assert(s.drop_first()[i - 1] == s[i]);
            }
        }
    }
}

// ------------------------------------------------------------------
// Constructor tags, used to discharge the cross-variant cases of the
// executable identity check.
// ------------------------------------------------------------------

pub open spec fn tag_of(t: TypeV) -> int {
    match t {
        TypeV::Keyword { .. } => 0,
        TypeV::Lit { .. } => 1,
        TypeV::Array { .. } => 2,
        TypeV::Tuple { .. } => 3,
        TypeV::Union { .. } => 4,
        TypeV::Intersection { .. } => 5,
        TypeV::Function { .. } => 6,
        TypeV::Constructor { .. } => 7,
        TypeV::TypeLit { .. } => 8,
        TypeV::Class { .. } => 9,
        TypeV::Interface { .. } => 10,
        TypeV::Enum { .. } => 11,
        TypeV::EnumVariant { .. } => 12,
        TypeV::Param { .. } => 13,
        TypeV::Alias { .. } => 14,
        TypeV::Ref { .. } => 15,
        TypeV::This { .. } => 16,
        TypeV::Query { .. } => 17,
    }
}

pub open spec fn exec_tag_of(t: Type) -> int {
    match t {
        Type::Keyword { .. } => 0,
        Type::Lit { .. } => 1,
        Type::Array { .. } => 2,
        Type::Tuple { .. } => 3,
        Type::Union { .. } => 4,
        Type::Intersection { .. } => 5,
        Type::Function { .. } => 6,
        Type::Constructor { .. } => 7,
        Type::TypeLit { .. } => 8,
        Type::Class { .. } => 9,
        Type::Interface { .. } => 10,
        Type::Enum { .. } => 11,
        Type::EnumVariant { .. } => 12,
        Type::Param { .. } => 13,
        Type::Alias { .. } => 14,
        Type::Ref { .. } => 15,
        Type::This { .. } => 16,
        Type::Query { .. } => 17,
    }
}

pub broadcast proof fn lemma_strip_keeps_tag(t: TypeV, ig: bool)
    ensures
        tag_of(#[trigger] strip_ty(t, ig)) == tag_of(t),
{
    match t {
        TypeV::Keyword { .. } => {},
        TypeV::Lit { .. } => {},
        TypeV::Array { .. } => {},
        TypeV::Tuple { .. } => {},
        TypeV::Union { .. } => {},
        TypeV::Intersection { .. } => {},
        TypeV::Function { .. } => {},
        TypeV::Constructor { .. } => {},
        TypeV::TypeLit { .. } => {},
        TypeV::Class { .. } => {},
        TypeV::Interface { .. } => {},
        TypeV::Enum { .. } => {},
        TypeV::EnumVariant { .. } => {},
        TypeV::Param { .. } => {},
        TypeV::Alias { .. } => {},
        TypeV::Ref { .. } => {},
        TypeV::This { .. } => {},
        TypeV::Query { .. } => {},
    }
}

pub broadcast proof fn lemma_view_keeps_tag(t: Type)
    ensures
        tag_of(#[trigger] view_ty(t)) == exec_tag_of(t),
{
    match t {
        Type::Keyword { .. } => {},
        Type::Lit { .. } => {},
        Type::Array { .. } => {},
        Type::Tuple { .. } => {},
        Type::Union { .. } => {},
        Type::Intersection { .. } => {},
        Type::Function { .. } => {},
        Type::Constructor { .. } => {},
        Type::TypeLit { .. } => {},
        Type::Class { .. } => {},
        Type::Interface { .. } => {},
        Type::Enum { .. } => {},
        Type::EnumVariant { .. } => {},
        Type::Param { .. } => {},
        Type::Alias { .. } => {},
        Type::Ref { .. } => {},
        Type::This { .. } => {},
        Type::Query { .. } => {},
    }
}

pub open spec fn elem_tag_of(e: TypeElementV) -> int {
    match e {
        TypeElementV::Property { .. } => 0,
        TypeElementV::Method { .. } => 1,
        TypeElementV::CallSig { .. } => 2,
        TypeElementV::ConstructSig { .. } => 3,
    }
}

pub open spec fn elem_exec_tag_of(e: TypeElement) -> int {
    match e {
        TypeElement::Property { .. } => 0,
        TypeElement::Method { .. } => 1,
        TypeElement::CallSig { .. } => 2,
        TypeElement::ConstructSig { .. } => 3,
    }
}

pub broadcast proof fn lemma_elem_view_tag(e: TypeElement)
    ensures
        elem_tag_of(#[trigger] view_elem(e)) == elem_exec_tag_of(e),
{
    match e {
        TypeElement::Property { .. } => {},
        TypeElement::Method { .. } => {},
        TypeElement::CallSig { .. } => {},
        TypeElement::ConstructSig { .. } => {},
    }
}

// ------------------------------------------------------------------
// Executable structural identity.
// ------------------------------------------------------------------

fn lit_eq(a: &LitValue, b: &LitValue) -> (r: bool)
    ensures
        r == (a@ == b@),
{
    match (a, b) {
        (LitValue::Bool(x), LitValue::Bool(y)) => *x == *y,
        (LitValue::Bool(..), LitValue::Num(..)) => false,
        (LitValue::Bool(..), LitValue::Str(..)) => false,
        (LitValue::Num(x), LitValue::Num(y)) => *x == *y,
        (LitValue::Num(..), LitValue::Bool(..)) => false,
        (LitValue::Num(..), LitValue::Str(..)) => false,
        (LitValue::Str(x), LitValue::Str(y)) => *x == *y,
        (LitValue::Str(..), LitValue::Bool(..)) => false,
        (LitValue::Str(..), LitValue::Num(..)) => false,
    }
}

pub fn key_eq(a: &PropKey, b: &PropKey) -> (r: bool)
    ensures
        r == (strip_key(a@) == strip_key(b@)),
{
    match (a, b) {
        (PropKey::Ident { name: x, .. }, PropKey::Ident { name: y, .. }) => *x == *y,
        (PropKey::Ident { .. }, PropKey::StrKey { .. }) => false,
        (PropKey::Ident { .. }, PropKey::NumKey { .. }) => false,
        (PropKey::StrKey { value: x, .. }, PropKey::StrKey { value: y, .. }) => *x == *y,
        (PropKey::StrKey { .. }, PropKey::Ident { .. }) => false,
        (PropKey::StrKey { .. }, PropKey::NumKey { .. }) => false,
        (PropKey::NumKey { value: x, .. }, PropKey::NumKey { value: y, .. }) => *x == *y,
        (PropKey::NumKey { .. }, PropKey::Ident { .. }) => false,
        (PropKey::NumKey { .. }, PropKey::StrKey { .. }) => false,
    }
}

fn opt_string_eq(a: &Option<String>, b: &Option<String>) -> (r: bool)
    ensures
        r == (match (a, b) {
            (Option::Some(x), Option::Some(y)) => x@ == y@,
            (Option::None, Option::None) => true,
            _ => false,
        }),
{
    match (a, b) {
        (Option::Some(x), Option::Some(y)) => *x == *y,
        (Option::None, Option::None) => true,
        _ => false,
    }
}

fn enum_member_eq(a: &EnumMember, b: &EnumMember) -> (r: bool)
    ensures
        r == (strip_enum_member(a@) == strip_enum_member(b@)),
{
    if !(a.name == b.name) {
        return false;
    }
    match (&a.init, &b.init) {
        (Option::Some(x), Option::Some(y)) => lit_eq(x, y),
        (Option::None, Option::None) => true,
        _ => false,
    }
}

fn enum_members_eq(a: &Vec<EnumMember>, b: &Vec<EnumMember>) -> (r: bool)
    ensures
        r == (strip_enum_members(view_enum_members(a@)) == strip_enum_members(
            view_enum_members(b@),
        )),
{
    if a.len() != b.len() {
        proof {
            assert(strip_enum_members(view_enum_members(a@)).len() == a@.len());
            assert(strip_enum_members(view_enum_members(b@)).len() == b@.len());
        }
        return false;
    }
    let n = a.len();
    let mut i: usize = 0;
    while i < n
        invariant
            n == a.len(),
            a@.len() == b@.len(),
            i <= n,
            forall|j: int|
                0 <= j < i ==> strip_enum_member(a@[j]@) == strip_enum_member(b@[j]@),
        decreases n - i,
    {
        if !enum_member_eq(&a[i], &b[i]) {
            proof {
                assert(view_enum_members(a@)[i as int] == a@[i as int]@);
                assert(view_enum_members(b@)[i as int] == b@[i as int]@);
                assert(strip_enum_members(view_enum_members(a@))[i as int]
                    == strip_enum_member(a@[i as int]@));
                assert(strip_enum_members(view_enum_members(b@))[i as int]
                    == strip_enum_member(b@[i as int]@));
            }
            return false;
        }
        i += 1;
    }
    proof {
        assert forall|j: int| 0 <= j < a@.len() implies strip_enum_members(
            view_enum_members(a@),
        )[j] == strip_enum_members(view_enum_members(b@))[j] by {
            assert(view_enum_members(a@)[j] == a@[j]@);
            assert(view_enum_members(b@)[j] == b@[j]@);
        }
        assert(strip_enum_members(view_enum_members(a@)) =~= strip_enum_members(
            view_enum_members(b@),
        ));
    }
    true
}

fn strings_eq(a: &Vec<String>, b: &Vec<String>) -> (r: bool)
    ensures
        r == (view_strings(a@) == view_strings(b@)),
{
    if a.len() != b.len() {
        proof {
            assert(view_strings(a@).len() == a@.len());
            assert(view_strings(b@).len() == b@.len());
        }
        return false;
    }
    let n = a.len();
    let mut i: usize = 0;
    while i < n
        invariant
            n == a.len(),
            a@.len() == b@.len(),
            i <= n,
            forall|j: int| 0 <= j < i ==> a@[j]@ == b@[j]@,
        decreases n - i,
    {
        if !(a[i] == b[i]) {
            proof {
                assert(view_strings(a@)[i as int] == a@[i as int]@);
                assert(view_strings(b@)[i as int] == b@[i as int]@);
            }
            return false;
        }
        i += 1;
    }
    proof {
        assert forall|j: int| 0 <= j < a@.len() implies view_strings(a@)[j] == view_strings(
            b@,
        )[j] by {
            assert(view_strings(a@)[j] == a@[j]@);
            assert(view_strings(b@)[j] == b@[j]@);
        }
        assert(view_strings(a@) =~= view_strings(b@));
    }
    true
}

fn opt_ty_eq(a: &Option<Box<Type>>, b: &Option<Box<Type>>, ig: bool) -> (r: bool)
    ensures
        r == (strip_opt_ty(view_opt_ty(*a), ig) == strip_opt_ty(view_opt_ty(*b), ig)),
    decreases *a,
{
    match (a, b) {
        (Option::Some(x), Option::Some(y)) => ty_eq(x, y, ig),
        (Option::None, Option::None) => true,
        (Option::Some(..), Option::None) => false,
        (Option::None, Option::Some(..)) => false,
    }
}

fn param_eq(a: &FnParam, b: &FnParam, ig: bool) -> (r: bool)
    ensures
        r == (strip_param(view_param(*a), ig) == strip_param(view_param(*b), ig)),
    decreases *a,
{
    if !ig && !(a.name == b.name) {
        return false;
    }
    if a.optional != b.optional {
        return false;
    }
    opt_ty_eq(&a.ty, &b.ty, ig)
}

fn params_eq(a: &Vec<FnParam>, b: &Vec<FnParam>, ig: bool) -> (r: bool)
    ensures
        r == (strip_params(view_params(a@), ig) == strip_params(view_params(b@), ig)),
    decreases *a,
{
    proof {
        lemma_view_params(a@);
        lemma_view_params(b@);
        lemma_strip_params(view_params(a@), ig);
        lemma_strip_params(view_params(b@), ig);
    }
    if a.len() != b.len() {
        return false;
    }
    let n = a.len();
    let mut i: usize = 0;
    while i < n
        invariant
            n == a.len(),
            a@.len() == b@.len(),
            i <= n,
            forall|j: int|
                0 <= j < i ==> strip_param(view_param(a@[j]), ig) == strip_param(
                    view_param(b@[j]),
                    ig,
                ),
        decreases n - i,
    {
        if !param_eq(&a[i], &b[i], ig) {
            proof {
                lemma_view_params(a@);
                lemma_view_params(b@);
                lemma_strip_params(view_params(a@), ig);
                lemma_strip_params(view_params(b@), ig);
                assert(strip_params(view_params(a@), ig)[i as int] == strip_param(
                    view_param(a@[i as int]),
                    ig,
                ));
                assert(strip_params(view_params(b@), ig)[i as int] == strip_param(
                    view_param(b@[i as int]),
                    ig,
                ));
            }
            return false;
        }
        i += 1;
    }
    proof {
        lemma_view_params(a@);
        lemma_view_params(b@);
        lemma_strip_params(view_params(a@), ig);
        lemma_strip_params(view_params(b@), ig);
        assert forall|j: int| 0 <= j < a@.len() implies strip_params(view_params(a@), ig)[j]
            == strip_params(view_params(b@), ig)[j] by {
            assert(strip_params(view_params(a@), ig)[j] == strip_param(view_param(a@[j]), ig));
            assert(strip_params(view_params(b@), ig)[j] == strip_param(view_param(b@[j]), ig));
        }
        assert(strip_params(view_params(a@), ig) =~= strip_params(view_params(b@), ig));
    }
    true
}

fn type_param_eq(a: &TypeParamDecl, b: &TypeParamDecl, ig: bool) -> (r: bool)
    ensures
        r == (strip_type_param(view_type_param(*a), ig) == strip_type_param(
            view_type_param(*b),
            ig,
        )),
    decreases *a,
{
    if !(a.name == b.name) {
        return false;
    }
    if !opt_ty_eq(&a.constraint, &b.constraint, ig) {
        return false;
    }
    opt_ty_eq(&a.default, &b.default, ig)
}

fn type_params_eq(a: &Vec<TypeParamDecl>, b: &Vec<TypeParamDecl>, ig: bool) -> (r: bool)
    ensures
        r == (strip_type_params(view_type_params(a@), ig) == strip_type_params(
            view_type_params(b@),
            ig,
        )),
    decreases *a,
{
    proof {
        lemma_view_type_params(a@);
        lemma_view_type_params(b@);
        lemma_strip_type_params(view_type_params(a@), ig);
        lemma_strip_type_params(view_type_params(b@), ig);
    }
    if a.len() != b.len() {
        return false;
    }
    let n = a.len();
    let mut i: usize = 0;
    while i < n
        invariant
            n == a.len(),
            a@.len() == b@.len(),
            i <= n,
            forall|j: int|
                0 <= j < i ==> strip_type_param(view_type_param(a@[j]), ig) == strip_type_param(
                    view_type_param(b@[j]),
                    ig,
                ),
        decreases n - i,
    {
        if !type_param_eq(&a[i], &b[i], ig) {
            proof {
                lemma_view_type_params(a@);
                lemma_view_type_params(b@);
                lemma_strip_type_params(view_type_params(a@), ig);
                lemma_strip_type_params(view_type_params(b@), ig);
                assert(strip_type_params(view_type_params(a@), ig)[i as int] == strip_type_param(
                    view_type_param(a@[i as int]),
                    ig,
                ));
                assert(strip_type_params(view_type_params(b@), ig)[i as int] == strip_type_param(
                    view_type_param(b@[i as int]),
                    ig,
                ));
            }
            return false;
        }
        i += 1;
    }
    proof {
        lemma_view_type_params(a@);
        lemma_view_type_params(b@);
        lemma_strip_type_params(view_type_params(a@), ig);
        lemma_strip_type_params(view_type_params(b@), ig);
        assert forall|j: int| 0 <= j < a@.len() implies strip_type_params(
            view_type_params(a@),
            ig,
        )[j] == strip_type_params(view_type_params(b@), ig)[j] by {
            assert(strip_type_params(view_type_params(a@), ig)[j] == strip_type_param(
                view_type_param(a@[j]),
                ig,
            ));
            assert(strip_type_params(view_type_params(b@), ig)[j] == strip_type_param(
                view_type_param(b@[j]),
                ig,
            ));
        }
        assert(strip_type_params(view_type_params(a@), ig) =~= strip_type_params(
            view_type_params(b@),
            ig,
        ));
    }
    true
}

fn elem_eq(a: &TypeElement, b: &TypeElement, ig: bool) -> (r: bool)
    ensures
        r == (strip_elem(view_elem(*a), ig) == strip_elem(view_elem(*b), ig)),
    decreases *a,
{
    match (a, b) {
        (
            TypeElement::Property { key: k1, optional: o1, readonly: r1, ty: t1, .. },
            TypeElement::Property { key: k2, optional: o2, readonly: r2, ty: t2, .. },
        ) => key_eq(k1, k2) && *o1 == *o2 && *r1 == *r2 && opt_ty_eq(t1, t2, ig),
        (
            TypeElement::Method { key: k1, params: p1, type_params: tp1, ret: r1, .. },
            TypeElement::Method { key: k2, params: p2, type_params: tp2, ret: r2, .. },
        ) => key_eq(k1, k2) && params_eq(p1, p2, ig) && type_params_eq(tp1, tp2, ig) && opt_ty_eq(
            r1,
            r2,
            ig,
        ),
        (
            TypeElement::CallSig { params: p1, type_params: tp1, ret: r1, .. },
            TypeElement::CallSig { params: p2, type_params: tp2, ret: r2, .. },
        ) => params_eq(p1, p2, ig) && type_params_eq(tp1, tp2, ig) && opt_ty_eq(r1, r2, ig),
        (
            TypeElement::ConstructSig { params: p1, type_params: tp1, ret: r1, .. },
            TypeElement::ConstructSig { params: p2, type_params: tp2, ret: r2, .. },
        ) => params_eq(p1, p2, ig) && type_params_eq(tp1, tp2, ig) && opt_ty_eq(r1, r2, ig),
        (TypeElement::Property { .. }, _) => false,
        (TypeElement::Method { .. }, _) => false,
        (TypeElement::CallSig { .. }, _) => false,
        (TypeElement::ConstructSig { .. }, _) => false,
    }
}

fn elems_eq(a: &Vec<TypeElement>, b: &Vec<TypeElement>, ig: bool) -> (r: bool)
    ensures
        r == (strip_elems(view_elems(a@), ig) == strip_elems(view_elems(b@), ig)),
    decreases *a,
{
    proof {
        lemma_view_elems(a@);
        lemma_view_elems(b@);
        lemma_strip_elems(view_elems(a@), ig);
        lemma_strip_elems(view_elems(b@), ig);
    }
    if a.len() != b.len() {
        return false;
    }
    let n = a.len();
    let mut i: usize = 0;
    while i < n
        invariant
            n == a.len(),
            a@.len() == b@.len(),
            i <= n,
            forall|j: int|
                0 <= j < i ==> strip_elem(view_elem(a@[j]), ig) == strip_elem(view_elem(b@[j]), ig),
        decreases n - i,
    {
        if !elem_eq(&a[i], &b[i], ig) {
            proof {
                lemma_view_elems(a@);
                lemma_view_elems(b@);
                lemma_strip_elems(view_elems(a@), ig);
                lemma_strip_elems(view_elems(b@), ig);
                assert(strip_elems(view_elems(a@), ig)[i as int] == strip_elem(
                    view_elem(a@[i as int]),
                    ig,
                ));
                assert(strip_elems(view_elems(b@), ig)[i as int] == strip_elem(
                    view_elem(b@[i as int]),
                    ig,
                ));
            }
            return false;
        }
        i += 1;
    }
    proof {
        lemma_view_elems(a@);
        lemma_view_elems(b@);
        lemma_strip_elems(view_elems(a@), ig);
        lemma_strip_elems(view_elems(b@), ig);
        assert forall|j: int| 0 <= j < a@.len() implies strip_elems(view_elems(a@), ig)[j]
            == strip_elems(view_elems(b@), ig)[j] by {
            assert(strip_elems(view_elems(a@), ig)[j] == strip_elem(view_elem(a@[j]), ig));
            assert(strip_elems(view_elems(b@), ig)[j] == strip_elem(view_elem(b@[j]), ig));
        }
        assert(strip_elems(view_elems(a@), ig) =~= strip_elems(view_elems(b@), ig));
    }
    true
}

fn tys_vec_eq(a: &Vec<Type>, b: &Vec<Type>, ig: bool) -> (r: bool)
    ensures
        r == (strip_tys(view_tys(a@), ig) == strip_tys(view_tys(b@), ig)),
    decreases *a,
{
    proof {
        lemma_view_tys(a@);
        lemma_view_tys(b@);
        lemma_strip_tys(view_tys(a@), ig);
        lemma_strip_tys(view_tys(b@), ig);
    }
    if a.len() != b.len() {
        return false;
    }
    let n = a.len();
    let mut i: usize = 0;
    while i < n
        invariant
            n == a.len(),
            a@.len() == b@.len(),
            i <= n,
            forall|j: int|
                0 <= j < i ==> strip_ty(view_ty(a@[j]), ig) == strip_ty(view_ty(b@[j]), ig),
        decreases n - i,
    {
        if !ty_eq(&a[i], &b[i], ig) {
            proof {
                lemma_view_tys(a@);
                lemma_view_tys(b@);
                lemma_strip_tys(view_tys(a@), ig);
                lemma_strip_tys(view_tys(b@), ig);
                assert(strip_tys(view_tys(a@), ig)[i as int] == strip_ty(
                    view_ty(a@[i as int]),
                    ig,
                ));
                assert(strip_tys(view_tys(b@), ig)[i as int] == strip_ty(
                    view_ty(b@[i as int]),
                    ig,
                ));
            }
            return false;
        }
        i += 1;
    }
    proof {
        lemma_view_tys(a@);
        lemma_view_tys(b@);
        lemma_strip_tys(view_tys(a@), ig);
        lemma_strip_tys(view_tys(b@), ig);
        assert forall|j: int| 0 <= j < a@.len() implies strip_tys(view_tys(a@), ig)[j]
            == strip_tys(view_tys(b@), ig)[j] by {
            assert(strip_tys(view_tys(a@), ig)[j] == strip_ty(view_ty(a@[j]), ig));
            assert(strip_tys(view_tys(b@), ig)[j] == strip_ty(view_ty(b@[j]), ig));
        }
        assert(strip_tys(view_tys(a@), ig) =~= strip_tys(view_tys(b@), ig));
    }
    true
}

fn ty_eq(a: &Type, b: &Type, ig: bool) -> (r: bool)
    ensures
        r == (strip_ty(view_ty(*a), ig) == strip_ty(view_ty(*b), ig)),
    decreases *a,
{
    broadcast use lemma_strip_keeps_tag, lemma_view_keeps_tag;

    match (a, b) {
        (Type::Keyword { kind: k1, .. }, Type::Keyword { kind: k2, .. }) => *k1 == *k2,
        (Type::Lit { lit: l1, .. }, Type::Lit { lit: l2, .. }) => lit_eq(l1, l2),
        (Type::Array { elem: e1, .. }, Type::Array { elem: e2, .. }) => ty_eq(e1, e2, ig),
        (Type::Tuple { elems: e1, .. }, Type::Tuple { elems: e2, .. }) => tys_vec_eq(e1, e2, ig),
        (Type::Union { types: t1, .. }, Type::Union { types: t2, .. }) => tys_vec_eq(t1, t2, ig),
        (
            Type::Intersection { types: t1, .. },
            Type::Intersection { types: t2, .. },
        ) => tys_vec_eq(t1, t2, ig),
        (
            Type::Function { params: p1, type_params: tp1, ret: r1, .. },
            Type::Function { params: p2, type_params: tp2, ret: r2, .. },
        ) => params_eq(p1, p2, ig) && type_params_eq(tp1, tp2, ig) && ty_eq(r1, r2, ig),
        (
            Type::Constructor { params: p1, type_params: tp1, ret: r1, .. },
            Type::Constructor { params: p2, type_params: tp2, ret: r2, .. },
        ) => params_eq(p1, p2, ig) && type_params_eq(tp1, tp2, ig) && ty_eq(r1, r2, ig),
        (
            Type::TypeLit { members: m1, .. },
            Type::TypeLit { members: m2, .. },
        ) => elems_eq(m1, m2, ig),
        (
            Type::Class { name: n1, body: b1, .. },
            Type::Class { name: n2, body: b2, .. },
        ) => opt_string_eq(n1, n2) && elems_eq(b1, b2, ig),
        (
            Type::Interface { name: n1, type_params: tp1, body: b1, parents: pr1, .. },
            Type::Interface { name: n2, type_params: tp2, body: b2, parents: pr2, .. },
        ) => *n1 == *n2 && type_params_eq(tp1, tp2, ig) && elems_eq(b1, b2, ig) && strings_eq(
            pr1,
            pr2,
        ),
        (
            Type::Enum { name: n1, members: m1, .. },
            Type::Enum { name: n2, members: m2, .. },
        ) => *n1 == *n2 && enum_members_eq(m1, m2),
        (
            Type::EnumVariant { enum_name: e1, name: n1, .. },
            Type::EnumVariant { enum_name: e2, name: n2, .. },
        ) => *e1 == *e2 && *n1 == *n2,
        (
            Type::Param { name: n1, constraint: c1, default: d1, .. },
            Type::Param { name: n2, constraint: c2, default: d2, .. },
        ) => *n1 == *n2 && opt_ty_eq(c1, c2, ig) && opt_ty_eq(d1, d2, ig),
        (
            Type::Alias { ty: t1, type_params: tp1, .. },
            Type::Alias { ty: t2, type_params: tp2, .. },
        ) => ty_eq(t1, t2, ig) && type_params_eq(tp1, tp2, ig),
        (
            Type::Ref { name: n1, member: mm1, type_args: ta1, .. },
            Type::Ref { name: n2, member: mm2, type_args: ta2, .. },
        ) => *n1 == *n2 && opt_string_eq(mm1, mm2) && tys_vec_eq(ta1, ta2, ig),
        (Type::This { .. }, Type::This { .. }) => true,
        (Type::Query { name: n1, .. }, Type::Query { name: n2, .. }) => *n1 == *n2,
        _ => false,
    }
}

/// Structural equality of two types, ignoring spans.
pub fn eq_ignore_span(a: &Type, b: &Type) -> (r: bool)
    ensures
        r == same_ty(a@, b@),
{
    ty_eq(a, b, false)
}

/// Structural equality of two types, ignoring spans and bound
/// parameter names.
pub fn eq_ignore_name_and_span(a: &Type, b: &Type) -> (r: bool)
    ensures
        r == same_ty_no_names(a@, b@),
{
    ty_eq(a, b, true)
}

// ------------------------------------------------------------------
// Deep duplication. The analyzer often records one structural type in
// several places (a binding and an export, say); duplication is the
// executable counterpart of sharing the ghost value.
// ------------------------------------------------------------------

pub fn dup_string(s: &String) -> (r: String)
    ensures
        r@ == s@,
{
    s.clone()
}

fn dup_opt_string(s: &Option<String>) -> (r: Option<String>)
    ensures
        (match (s, &r) {
            (Option::Some(x), Option::Some(y)) => x@ == y@,
            (Option::None, Option::None) => true,
            _ => false,
        }),
{
    match s {
        Option::Some(x) => Option::Some(x.clone()),
        Option::None => Option::None,
    }
}

pub fn dup_lit(l: &LitValue) -> (r: LitValue)
    ensures
        r@ == l@,
{
    match l {
        LitValue::Bool(b) => LitValue::Bool(*b),
        LitValue::Num(n) => LitValue::Num(*n),
        LitValue::Str(s) => LitValue::Str(s.clone()),
    }
}

pub fn dup_key(k: &PropKey) -> (r: PropKey)
    ensures
        r@ == k@,
{
    match k {
        PropKey::Ident { span, name } => PropKey::Ident { span: *span, name: name.clone() },
        PropKey::StrKey { span, value } => PropKey::StrKey { span: *span, value: value.clone() },
        PropKey::NumKey { span, value } => PropKey::NumKey { span: *span, value: *value },
    }
}

fn dup_enum_member(m: &EnumMember) -> (r: EnumMember)
    ensures
        r@ == m@,
{
    EnumMember {
        span: m.span,
        name: m.name.clone(),
        init: match &m.init {
            Option::Some(l) => Option::Some(dup_lit(l)),
            Option::None => Option::None,
        },
    }
}

pub fn dup_enum_members(ms: &Vec<EnumMember>) -> (r: Vec<EnumMember>)
    ensures
        view_enum_members(r@) == view_enum_members(ms@),
{
    let mut out: Vec<EnumMember> = Vec::new();
    let n = ms.len();
    let mut i: usize = 0;
    while i < n
        invariant
            n == ms.len(),
            out@.len() == i,
            i <= n,
            forall|j: int| 0 <= j < i ==> out@[j]@ == ms@[j]@,
        decreases n - i,
    {
        let m = dup_enum_member(&ms[i]);
        out.push(m);
        i += 1;
    }
    proof {
        assert forall|j: int| 0 <= j < ms@.len() implies view_enum_members(out@)[j]
            == view_enum_members(ms@)[j] by {
            assert(view_enum_members(out@)[j] == out@[j]@);
            assert(view_enum_members(ms@)[j] == ms@[j]@);
        }
        assert(view_enum_members(out@) =~= view_enum_members(ms@));
    }
    out
}

pub fn dup_strings(ss: &Vec<String>) -> (r: Vec<String>)
    ensures
        view_strings(r@) == view_strings(ss@),
{
    let mut out: Vec<String> = Vec::new();
    let n = ss.len();
    let mut i: usize = 0;
    while i < n
        invariant
            n == ss.len(),
            out@.len() == i,
            i <= n,
            forall|j: int| 0 <= j < i ==> out@[j]@ == ss@[j]@,
        decreases n - i,
    {
        let s = dup_string(&ss[i]);
        out.push(s);
        i += 1;
    }
    proof {
        assert forall|j: int| 0 <= j < ss@.len() implies view_strings(out@)[j] == view_strings(
            ss@,
        )[j] by {
            assert(view_strings(out@)[j] == out@[j]@);
            assert(view_strings(ss@)[j] == ss@[j]@);
        }
        assert(view_strings(out@) =~= view_strings(ss@));
    }
    out
}

pub fn dup_opt_ty(t: &Option<Box<Type>>) -> (r: Option<Box<Type>>)
    ensures
        view_opt_ty(r) == view_opt_ty(*t),
    decreases *t,
{
    match t {
        Option::Some(b) => Option::Some(Box::new(dup_ty(b))),
        Option::None => Option::None,
    }
}

fn dup_param(p: &FnParam) -> (r: FnParam)
    ensures
        view_param(r) == view_param(*p),
    decreases *p,
{
    FnParam {
        span: p.span,
        name: p.name.clone(),
        optional: p.optional,
        ty: dup_opt_ty(&p.ty),
    }
}

pub fn dup_params(ps: &Vec<FnParam>) -> (r: Vec<FnParam>)
    ensures
        view_params(r@) == view_params(ps@),
    decreases *ps,
{
    let mut out: Vec<FnParam> = Vec::new();
    let n = ps.len();
    let mut i: usize = 0;
    while i < n
        invariant
            n == ps.len(),
            out@.len() == i,
            i <= n,
            forall|j: int| 0 <= j < i ==> view_param(out@[j]) == view_param(ps@[j]),
        decreases n - i,
    {
        let p = dup_param(&ps[i]);
        out.push(p);
        i += 1;
    }
    proof {
        lemma_view_params(out@);
        lemma_view_params(ps@);
        assert(view_params(out@) =~= view_params(ps@));
    }
    out
}

fn dup_type_param(p: &TypeParamDecl) -> (r: TypeParamDecl)
    ensures
        view_type_param(r) == view_type_param(*p),
    decreases *p,
{
    TypeParamDecl {
        span: p.span,
        name: p.name.clone(),
        constraint: dup_opt_ty(&p.constraint),
        default: dup_opt_ty(&p.default),
    }
}

pub fn dup_type_params(ps: &Vec<TypeParamDecl>) -> (r: Vec<TypeParamDecl>)
    ensures
        view_type_params(r@) == view_type_params(ps@),
    decreases *ps,
{
    let mut out: Vec<TypeParamDecl> = Vec::new();
    let n = ps.len();
    let mut i: usize = 0;
    while i < n
        invariant
            n == ps.len(),
            out@.len() == i,
            i <= n,
            forall|j: int| 0 <= j < i ==> view_type_param(out@[j]) == view_type_param(ps@[j]),
        decreases n - i,
    {
        let p = dup_type_param(&ps[i]);
        out.push(p);
        i += 1;
    }
    proof {
        lemma_view_type_params(out@);
        lemma_view_type_params(ps@);
        assert(view_type_params(out@) =~= view_type_params(ps@));
    }
    out
}

pub fn dup_elem(e: &TypeElement) -> (r: TypeElement)
    ensures
        view_elem(r) == view_elem(*e),
    decreases *e,
{
    match e {
        TypeElement::Property { span, key, optional, readonly, ty } => TypeElement::Property {
            span: *span,
            key: dup_key(key),
            optional: *optional,
            readonly: *readonly,
            ty: dup_opt_ty(ty),
        },
        TypeElement::Method { span, key, params, type_params, ret } => TypeElement::Method {
            span: *span,
            key: dup_key(key),
            params: dup_params(params),
            type_params: dup_type_params(type_params),
            ret: dup_opt_ty(ret),
        },
        TypeElement::CallSig { span, params, type_params, ret } => TypeElement::CallSig {
            span: *span,
            params: dup_params(params),
            type_params: dup_type_params(type_params),
            ret: dup_opt_ty(ret),
        },
        TypeElement::ConstructSig { span, params, type_params, ret } => TypeElement::ConstructSig {
            span: *span,
            params: dup_params(params),
            type_params: dup_type_params(type_params),
            ret: dup_opt_ty(ret),
        },
    }
}

pub fn dup_elems(es: &Vec<TypeElement>) -> (r: Vec<TypeElement>)
    ensures
        view_elems(r@) == view_elems(es@),
    decreases *es,
{
    let mut out: Vec<TypeElement> = Vec::new();
    let n = es.len();
    let mut i: usize = 0;
    while i < n
        invariant
            n == es.len(),
            out@.len() == i,
            i <= n,
            forall|j: int| 0 <= j < i ==> view_elem(out@[j]) == view_elem(es@[j]),
        decreases n - i,
    {
        let e = dup_elem(&es[i]);
        out.push(e);
        i += 1;
    }
    proof {
        lemma_view_elems(out@);
        lemma_view_elems(es@);
        assert(view_elems(out@) =~= view_elems(es@));
    }
    out
}

fn dup_tys(ts: &Vec<Type>) -> (r: Vec<Type>)
    ensures
        view_tys(r@) == view_tys(ts@),
    decreases *ts,
{
    let mut out: Vec<Type> = Vec::new();
    let n = ts.len();
    let mut i: usize = 0;
    while i < n
        invariant
            n == ts.len(),
            out@.len() == i,
            i <= n,
            forall|j: int| 0 <= j < i ==> view_ty(out@[j]) == view_ty(ts@[j]),
        decreases n - i,
    {
        let t = dup_ty(&ts[i]);
        out.push(t);
        i += 1;
    }
    proof {
        lemma_view_tys(out@);
        lemma_view_tys(ts@);
        assert(view_tys(out@) =~= view_tys(ts@));
    }
    out
}

/// Deep copy of a structural type; the copy has the same ghost value.
pub fn dup_ty(t: &Type) -> (r: Type)
    ensures
        r@ == t@,
    decreases *t,
{
    match t {
        Type::Keyword { span, kind } => Type::Keyword { span: *span, kind: *kind },
        Type::Lit { span, lit } => Type::Lit { span: *span, lit: dup_lit(lit) },
        Type::Array { span, elem } => Type::Array { span: *span, elem: Box::new(dup_ty(elem)) },
        Type::Tuple { span, elems } => Type::Tuple { span: *span, elems: dup_tys(elems) },
        Type::Union { span, types } => Type::Union { span: *span, types: dup_tys(types) },
        Type::Intersection { span, types } => Type::Intersection {
            span: *span,
            types: dup_tys(types),
        },
        Type::Function { span, params, type_params, ret } => Type::Function {
            span: *span,
            params: dup_params(params),
            type_params: dup_type_params(type_params),
            ret: Box::new(dup_ty(ret)),
        },
        Type::Constructor { span, params, type_params, ret } => Type::Constructor {
            span: *span,
            params: dup_params(params),
            type_params: dup_type_params(type_params),
            ret: Box::new(dup_ty(ret)),
        },
        Type::TypeLit { span, members } => Type::TypeLit {
            span: *span,
            members: dup_elems(members),
        },
        Type::Class { span, name, body } => Type::Class {
            span: *span,
            name: dup_opt_string(name),
            body: dup_elems(body),
        },
        Type::Interface { span, name, type_params, body, parents } => Type::Interface {
            span: *span,
            name: name.clone(),
            type_params: dup_type_params(type_params),
            body: dup_elems(body),
            parents: dup_strings(parents),
        },
        Type::Enum { span, name, members } => Type::Enum {
            span: *span,
            name: name.clone(),
            members: dup_enum_members(members),
        },
        Type::EnumVariant { span, enum_name, name } => Type::EnumVariant {
            span: *span,
            enum_name: enum_name.clone(),
            name: name.clone(),
        },
        Type::Param { span, name, constraint, default } => Type::Param {
            span: *span,
            name: name.clone(),
            constraint: dup_opt_ty(constraint),
            default: dup_opt_ty(default),
        },
        Type::Alias { span, ty, type_params } => Type::Alias {
            span: *span,
            ty: Box::new(dup_ty(ty)),
            type_params: dup_type_params(type_params),
        },
        Type::Ref { span, name, member, type_args } => Type::Ref {
            span: *span,
            name: name.clone(),
            member: dup_opt_string(member),
            type_args: dup_tys(type_args),
        },
        Type::This { span } => Type::This { span: *span },
        Type::Query { span, name } => Type::Query { span: *span, name: name.clone() },
    }
}

// ------------------------------------------------------------------
// Spans, widening, negation.
// ------------------------------------------------------------------

pub open spec fn span_of_v(t: TypeV) -> Span {
    match t {
        TypeV::Keyword { span, .. } => span,
        TypeV::Lit { span, .. } => span,
        TypeV::Array { span, .. } => span,
        TypeV::Tuple { span, .. } => span,
        TypeV::Union { span, .. } => span,
        TypeV::Intersection { span, .. } => span,
        TypeV::Function { span, .. } => span,
        TypeV::Constructor { span, .. } => span,
        TypeV::TypeLit { span, .. } => span,
        TypeV::Class { span, .. } => span,
        TypeV::Interface { span, .. } => span,
        TypeV::Enum { span, .. } => span,
        TypeV::EnumVariant { span, .. } => span,
        TypeV::Param { span, .. } => span,
        TypeV::Alias { span, .. } => span,
        TypeV::Ref { span, .. } => span,
        TypeV::This { span } => span,
        TypeV::Query { span, .. } => span,
    }
}

/// The source span a type carries.
pub fn span_of(t: &Type) -> (r: Span)
    ensures
        r == span_of_v(t@),
{
    match t {
        Type::Keyword { span, .. } => *span,
        Type::Lit { span, .. } => *span,
        Type::Array { span, .. } => *span,
        Type::Tuple { span, .. } => *span,
        Type::Union { span, .. } => *span,
        Type::Intersection { span, .. } => *span,
        Type::Function { span, .. } => *span,
        Type::Constructor { span, .. } => *span,
        Type::TypeLit { span, .. } => *span,
        Type::Class { span, .. } => *span,
        Type::Interface { span, .. } => *span,
        Type::Enum { span, .. } => *span,
        Type::EnumVariant { span, .. } => *span,
        Type::Param { span, .. } => *span,
        Type::Alias { span, .. } => *span,
        Type::Ref { span, .. } => *span,
        Type::This { span } => *span,
        Type::Query { span, .. } => *span,
    }
}

/// The keyword type a literal widens to.
pub open spec fn keyword_of_lit(l: LitV) -> KeywordKind {
    match l {
        LitV::Bool(..) => KeywordKind::Boolean,
        LitV::Num(..) => KeywordKind::Number,
        LitV::Str(..) => KeywordKind::Str,
    }
}

/// Widening: a literal type collapses to its base keyword type; every
/// other type is unchanged.
pub open spec fn widen_v(t: TypeV) -> TypeV {
    match t {
        TypeV::Lit { span, lit } => TypeV::Keyword { span, kind: keyword_of_lit(lit) },
        _ => t,
    }
}

/// Executable widening.
pub fn widen(t: Type) -> (r: Type)
    ensures
        r@ == widen_v(t@),
{
    match t {
        Type::Lit { span, lit } => {
            let kind = match lit {
                LitValue::Bool(..) => KeywordKind::Boolean,
                LitValue::Num(..) => KeywordKind::Number,
                LitValue::Str(..) => KeywordKind::Str,
            };
            Type::Keyword { span, kind }
        },
        other => other,
    }
}

/// The type of `!x` given the type of `x`: a boolean literal flips; a
/// numeric literal maps to `false` exactly when zero; a string literal
/// maps to `false` exactly when empty; everything else is `boolean`.
pub open spec fn negate_v(t: TypeV) -> TypeV {
    match t {
        TypeV::Lit { span, lit: LitV::Bool(b) } => TypeV::Lit { span, lit: LitV::Bool(!b) },
        TypeV::Lit { span, lit: LitV::Num(n) } => TypeV::Lit { span, lit: LitV::Bool(n != 0) },
        TypeV::Lit { span, lit: LitV::Str(s) } => TypeV::Lit {
            span,
            lit: LitV::Bool(s.len() != 0),
        },
        _ => TypeV::Keyword { span: span_of_v(t), kind: KeywordKind::Boolean },
    }
}

/// Executable negation of a type.
pub fn negate(t: Type) -> (r: Type)
    ensures
        r@ == negate_v(t@),
{
    match t {
        Type::Lit { span, lit: LitValue::Bool(b) } => Type::Lit {
            span,
            lit: LitValue::Bool(!b),
        },
        Type::Lit { span, lit: LitValue::Num(n) } => Type::Lit {
            span,
            lit: LitValue::Bool(n != 0),
        },
        Type::Lit { span, lit: LitValue::Str(s) } => {
            let nonempty = s.as_str().unicode_len() != 0;
            Type::Lit { span, lit: LitValue::Bool(nonempty) }
        },
        other => {
            let span = span_of(&other);
            Type::Keyword { span, kind: KeywordKind::Boolean }
        },
    }
}

// ------------------------------------------------------------------
// Union normalization. A union holds at least two structurally
// distinct members: construction flattens nested unions one level,
// removes structural duplicates keeping the first occurrence, and
// collapses the empty and the singleton cases.
// ------------------------------------------------------------------

/// Does `ts` hold a member structurally identical to `t`?
pub open spec fn contains_same(ts: Seq<TypeV>, t: TypeV) -> bool {
    exists|i: int| 0 <= i < ts.len() && same_ty(ts[i], t)
}

/// One-level flattening: a member that is itself a union contributes
/// its members.
pub open spec fn flatten_unions(ts: Seq<TypeV>) -> Seq<TypeV>
    decreases ts.len(),
{
    if ts.len() == 0 {
        Seq::empty()
    } else {
        (match ts[0] {
            TypeV::Union { types, .. } => types,
            other => seq![other],
        }) + flatten_unions(ts.drop_first())
    }
}

/// Removal of structural duplicates, keeping first occurrences.
pub open spec fn dedup_tys(ts: Seq<TypeV>) -> Seq<TypeV>
    decreases ts.len(),
{
    if ts.len() == 0 {
        Seq::empty()
    } else {
        dedup_tys(ts.drop_last()) + (if contains_same(ts.drop_last(), ts.last()) {
            Seq::empty()
        } else {
            seq![ts.last()]
        })
    }
}

/// The normalized union of `ts` at `span`.
pub open spec fn union_of_v(span: Span, ts: Seq<TypeV>) -> TypeV {
    let d = dedup_tys(flatten_unions(ts));
    if d.len() == 0 {
        TypeV::Keyword { span, kind: KeywordKind::Never }
    } else if d.len() == 1 {
        d[0]
    } else {
        TypeV::Union { span, types: d }
    }
}

/// What one member contributes to a flattened union.
pub open spec fn flat_one(t: TypeV) -> Seq<TypeV> {
    match t {
        TypeV::Union { types, .. } => types,
        other => seq![other],
    }
}

pub proof fn lemma_flatten_snoc(p: Seq<TypeV>, x: TypeV)
    ensures
        flatten_unions(p.push(x)) == flatten_unions(p) + flat_one(x),
    decreases p.len(),
{
    if p.len() == 0 {
        assert(p.push(x)[0] == x);
        assert(p.push(x).drop_first() =~= Seq::<TypeV>::empty());
        assert(flatten_unions(Seq::<TypeV>::empty()) == Seq::<TypeV>::empty());
        match x {
            TypeV::Union { .. } => {
                assert(flatten_unions(p.push(x)) =~= flatten_unions(p) + flat_one(x));
            },
            _ => {
                assert(flat_one(x) == seq![x]);
                assert(flatten_unions(p.push(x)) =~= flatten_unions(p) + flat_one(x));
            },
        }
    } else {
        lemma_flatten_snoc(p.drop_first(), x);
        assert(p.push(x)[0] == p[0]);
        assert(p.push(x).drop_first() =~= p.drop_first().push(x));
        match p[0] {
            TypeV::Union { .. } => {
                assert(flatten_unions(p.push(x)) == flat_one(p[0]) + flatten_unions(
                    p.drop_first().push(x),
                ));
                assert(flatten_unions(p) == flat_one(p[0]) + flatten_unions(p.drop_first()));
            },
            _ => {
                assert(flat_one(p[0]) == seq![p[0]]);
                assert(flatten_unions(p.push(x)) == flat_one(p[0]) + flatten_unions(
                    p.drop_first().push(x),
                ));
                assert(flatten_unions(p) == flat_one(p[0]) + flatten_unions(p.drop_first()));
            },
        }
        assert(flatten_unions(p.push(x)) =~= flatten_unions(p) + flat_one(x));
    }
}

pub proof fn lemma_dedup_snoc(p: Seq<TypeV>, x: TypeV)
    ensures
        dedup_tys(p.push(x)) == dedup_tys(p) + (if contains_same(p, x) {
            Seq::<TypeV>::empty()
        } else {
            seq![x]
        }),
{
    assert(p.push(x).drop_last() =~= p);
    assert(p.push(x).last() == x);
}

/// Deduplication keeps exactly the structural members: a type has a
/// structural duplicate in `dedup_tys(s)` precisely when it has one
/// in `s`.
pub proof fn lemma_dedup_contains(s: Seq<TypeV>, t: TypeV)
    ensures
        contains_same(dedup_tys(s), t) == contains_same(s, t),
    decreases s.len(),
{
    if s.len() == 0 {
    } else {
        let p = s.drop_last();
        let l = s.last();
        lemma_dedup_contains(p, t);
        assert(s =~= p.push(l));
        lemma_dedup_snoc(p, l);
        let d = dedup_tys(s);
        let dp = dedup_tys(p);
        if contains_same(p, l) {
            assert(d =~= dp);
            if same_ty(l, t) {
                let i = choose|i: int| 0 <= i < p.len() && same_ty(p[i], l);
                assert(same_ty(p[i], t));
                assert(contains_same(p, t));
            }
            assert forall|i: int| 0 <= i < s.len() && same_ty(s[i], t) implies contains_same(
                p,
                t,
            ) by {
                if i < p.len() {
                    assert(p[i] == s[i]);
                } else {
                    assert(s[i] == l);
                }
            }
            if contains_same(s, t) {
                assert(contains_same(p, t));
            }
            if contains_same(p, t) {
                let i = choose|i: int| 0 <= i < p.len() && same_ty(p[i], t);
                assert(s[i] == p[i]);
                assert(contains_same(s, t));
            }
        } else {
            assert(d =~= dp.push(l));
            if contains_same(s, t) {
                let i = choose|i: int| 0 <= i < s.len() && same_ty(s[i], t);
                if i < p.len() {
                    assert(p[i] == s[i]);
                    assert(contains_same(p, t));
                    let j = choose|j: int| 0 <= j < dp.len() && same_ty(dp[j], t);
                    assert(d[j] == dp[j]);
                    assert(contains_same(d, t));
                } else {
                    assert(s[i] == l);
                    assert(d[dp.len() as int] == l);
                    assert(contains_same(d, t));
                }
            }
            if contains_same(d, t) {
                let i = choose|i: int| 0 <= i < d.len() && same_ty(d[i], t);
                if i < dp.len() {
                    assert(dp[i] == d[i]);
                    assert(contains_same(dp, t));
                    assert(contains_same(p, t));
                    let j = choose|j: int| 0 <= j < p.len() && same_ty(p[j], t);
                    assert(s[j] == p[j]);
                    assert(contains_same(s, t));
                } else {
                    assert(d[i] == l);
                    assert(s[s.len() - 1] == l);
                    assert(contains_same(s, t));
                }
            }
        }
    }
}

/// Does `ts` already hold a type structurally equal to `t`?
pub fn contains_same_ty(ts: &Vec<Type>, t: &Type) -> (r: bool)
    ensures
        r == contains_same(view_tys(ts@), t@),
{
    proof {
        lemma_view_tys(ts@);
    }
    let n = ts.len();
    let mut i: usize = 0;
    while i < n
        invariant
            n == ts.len(),
            i <= n,
            forall|j: int| 0 <= j < i ==> !same_ty(view_ty(ts@[j]), t@),
        decreases n - i,
    {
        if eq_ignore_span(&ts[i], t) {
            proof {
                lemma_view_tys(ts@);
                assert(view_tys(ts@)[i as int] == view_ty(ts@[i as int]));
            }
            return true;
        }
        i += 1;
    }
    proof {
        lemma_view_tys(ts@);
        assert forall|j: int| 0 <= j < view_tys(ts@).len() implies !same_ty(
            view_tys(ts@)[j],
            t@,
        ) by {
            assert(view_tys(ts@)[j] == view_ty(ts@[j]));
        }
    }
    false
}

/// Builds the normalized union of `types` at `span`: nested unions are
/// flattened one level, structural duplicates dropped, and the empty
/// and singleton cases collapsed.
pub fn union_of(span: Span, types: Vec<Type>) -> (r: Type)
    ensures
        r@ == union_of_v(span, view_tys(types@)),
{
    broadcast use lemma_strip_keeps_tag, lemma_view_keeps_tag;

    proof {
        lemma_view_tys(types@);
    }
    let mut flat: Vec<Type> = Vec::new();
    let n = types.len();
    let mut i: usize = 0;
    proof {
        assert(view_tys(types@).take(0) =~= Seq::<TypeV>::empty());
        assert(flatten_unions(Seq::<TypeV>::empty()) == Seq::<TypeV>::empty());
        assert(view_tys(flat@) == Seq::<TypeV>::empty());
    }
    while i < n
        invariant
            n == types.len(),
            i <= n,
            view_tys(flat@) == flatten_unions(view_tys(types@).take(i as int)),
        decreases n - i,
    {
        proof {
            lemma_view_tys(types@);
            assert(view_tys(types@).take(i as int).push(view_tys(types@)[i as int]) =~= view_tys(
                types@,
            ).take(i + 1));
            lemma_flatten_snoc(view_tys(types@).take(i as int), view_tys(types@)[i as int]);
        }
        let ghost old_flat = flat@;
        match &types[i] {
            Type::Union { types: inner, .. } => {
                let m = inner.len();
                let mut k: usize = 0;
                proof {
                    lemma_view_tys(inner@);
                    assert(view_tys(inner@).take(0) =~= Seq::<TypeV>::empty());
                    assert(view_tys(flat@) =~= view_tys(old_flat) + view_tys(inner@).take(0));
                }
                while k < m
                    invariant
                        m == inner.len(),
                        k <= m,
                        view_tys(flat@) == view_tys(old_flat) + view_tys(inner@).take(k as int),
                    decreases m - k,
                {
                    proof {
                        lemma_view_tys(flat@);
                        lemma_view_tys(inner@);
                    }
                    let ghost pre = flat@;
                    let t = dup_ty(&inner[k]);
                    flat.push(t);
                    proof {
                        assert(flat@ == pre.push(t));
                        lemma_view_tys_snoc(pre, t);
                        assert(view_tys(inner@).take(k + 1) =~= view_tys(inner@).take(
                            k as int,
                        ).push(view_ty(inner@[k as int])));
                        assert(view_tys(flat@) =~= view_tys(old_flat) + view_tys(inner@).take(
                            k + 1,
                        ));
                    }
                    k += 1;
                }
                proof {
                    lemma_view_tys(inner@);
                    assert(view_tys(inner@).take(m as int) =~= view_tys(inner@));
                    assert(view_ty(types@[i as int]) == view_tys(types@)[i as int]);
                    assert(flat_one(view_tys(types@)[i as int]) == view_tys(inner@));
                    assert(view_tys(flat@) =~= flatten_unions(view_tys(types@).take(i + 1)));
                }
            },
            _ => {
                let ghost pre = flat@;
                let t = dup_ty(&types[i]);
                flat.push(t);
                proof {
                    assert(flat@ == pre.push(t));
                    lemma_view_tys_snoc(pre, t);
                    assert(view_ty(types@[i as int]) == view_tys(types@)[i as int]);
                    lemma_flat_one_non_union(view_tys(types@)[i as int]);
                    assert(view_tys(flat@) =~= flatten_unions(view_tys(types@).take(i + 1)));
                }
            },
        }
        i += 1;
    }
    proof {
        assert(view_tys(types@).take(n as int) =~= view_tys(types@));
    }
    let ghost fv = view_tys(flat@);
    let mut out: Vec<Type> = Vec::new();
    let fn_len = flat.len();
    let mut i2: usize = 0;
    proof {
        assert(fv.take(0) =~= Seq::<TypeV>::empty());
        assert(dedup_tys(Seq::<TypeV>::empty()) == Seq::<TypeV>::empty());
        assert(view_tys(out@) == Seq::<TypeV>::empty());
    }
    while i2 < fn_len
        invariant
            fn_len == flat.len(),
            i2 <= fn_len,
            fv == view_tys(flat@),
            view_tys(out@) == dedup_tys(fv.take(i2 as int)),
        decreases fn_len - i2,
    {
        proof {
            lemma_view_tys(flat@);
            assert(fv.take(i2 as int).push(fv[i2 as int]) =~= fv.take(i2 + 1));
            lemma_dedup_snoc(fv.take(i2 as int), fv[i2 as int]);
            lemma_dedup_contains(fv.take(i2 as int), fv[i2 as int]);
        }
        if !contains_same_ty(&out, &flat[i2]) {
            let ghost pre = out@;
            let t = dup_ty(&flat[i2]);
            out.push(t);
            proof {
                assert(flat@[i2 as int]@ == fv[i2 as int]);
                assert(flat@[i2 as int]@ == t@);
                assert(out@ == pre.push(t));
                lemma_view_tys_snoc(pre, t);
                assert(view_tys(out@) =~= dedup_tys(fv.take(i2 + 1)));
            }
        } else {
            proof {
                assert(flat@[i2 as int]@ == fv[i2 as int]);
                assert(contains_same(view_tys(out@), fv[i2 as int]));
                assert(contains_same(dedup_tys(fv.take(i2 as int)), fv[i2 as int]));
                assert(contains_same(fv.take(i2 as int), fv[i2 as int]));
                assert(dedup_tys(fv.take(i2 + 1)) == dedup_tys(fv.take(i2 as int))
                    + Seq::<TypeV>::empty());
                assert(view_tys(out@) =~= dedup_tys(fv.take(i2 + 1)));
            }
        }
        i2 += 1;
    }
    proof {
        lemma_view_tys(flat@);
        assert(fv.take(fn_len as int) =~= fv);
        lemma_view_tys(out@);
    }
    if out.len() == 0 {
        Type::Keyword { span, kind: KeywordKind::Never }
    } else if out.len() == 1 {
        let ghost outv = out@;
        let r = match out.pop() {
            Option::Some(t) => t,
            Option::None => Type::Keyword { span, kind: KeywordKind::Never },
        };
        proof {
            lemma_view_tys(outv);
            assert(view_tys(outv)[0] == view_ty(outv[0]));
        }
        r
    } else {
        Type::Union { span, types: out }
    }
}

pub proof fn lemma_flat_one_non_union(t: TypeV)
    requires
        !(t is Union),
    ensures
        flat_one(t) == seq![t],
{
}

/// Union normalization law: the union of one non-union member is that
/// member itself.
pub proof fn lemma_union_singleton(span: Span, t: TypeV)
    requires
        !(t is Union),
    ensures
        union_of_v(span, seq![t]) == t,
{
    let s = seq![t];
    assert(s[0] == t);
    assert(s.drop_first() =~= Seq::<TypeV>::empty());
    assert(flatten_unions(Seq::<TypeV>::empty()) == Seq::<TypeV>::empty());
    lemma_flat_one_non_union(t);
    match t {
        TypeV::Union { .. } => {},
        _ => {
            assert(flatten_unions(s) =~= seq![t]);
        },
    }
    let f = flatten_unions(s);
    assert(f.drop_last() =~= Seq::<TypeV>::empty());
    assert(f.last() == t);
    assert(!contains_same(Seq::<TypeV>::empty(), t));
    assert(dedup_tys(Seq::<TypeV>::empty()) == Seq::<TypeV>::empty());
    assert(dedup_tys(f) =~= seq![t]);
    assert(dedup_tys(f)[0] == t);
}

/// Union normalization law: adding to a union a member it already
/// holds yields the same union, up to spans.
pub proof fn lemma_union_absorb(s1: Span, s2: Span, a: TypeV, b: TypeV)
    requires
        !(a is Union),
        !(b is Union),
    ensures
        same_ty(
            union_of_v(s1, seq![union_of_v(s2, seq![a, b]), a]),
            union_of_v(s2, seq![a, b]),
        ),
{
    let ab = seq![a, b];
    lemma_flat_one_non_union(a);
    lemma_flat_one_non_union(b);
    assert(ab[0] == a);
    assert(ab.drop_first() =~= seq![b]);
    assert(seq![b][0] == b);
    assert(seq![b].drop_first() =~= Seq::<TypeV>::empty());
    assert(flatten_unions(Seq::<TypeV>::empty()) == Seq::<TypeV>::empty());
    match b {
        TypeV::Union { .. } => {},
        _ => {
            assert(flatten_unions(seq![b]) =~= seq![b]);
        },
    }
    match a {
        TypeV::Union { .. } => {},
        _ => {
            assert(flatten_unions(ab) =~= ab);
            assert(seq![a][0] == a);
            assert(seq![a].drop_first() =~= Seq::<TypeV>::empty());
            assert(flatten_unions(seq![a]) =~= seq![a]);
        },
    }
    assert(ab.drop_last() =~= seq![a]);
    assert(ab.last() == b);
    assert(seq![a].drop_last() =~= Seq::<TypeV>::empty());
    assert(seq![a].last() == a);
    assert(dedup_tys(Seq::<TypeV>::empty()) == Seq::<TypeV>::empty());
    assert(!contains_same(Seq::<TypeV>::empty(), a));
    assert(dedup_tys(seq![a]) =~= seq![a]);
    if same_ty(a, b) {
        assert(seq![a][0] == a);
        assert(contains_same(seq![a], b));
        assert(dedup_tys(ab) =~= seq![a]);
        let u = union_of_v(s2, ab);
        assert(u == a);
        let la = seq![u, a];
        assert(la.drop_first() =~= seq![a]);
        assert(la[0] == a);
        match a {
            TypeV::Union { .. } => {},
            _ => {
                assert(flatten_unions(la) =~= seq![a, a]);
            },
        }
        let aa = seq![a, a];
        assert(aa.drop_last() =~= seq![a]);
        assert(aa.last() == a);
        assert(contains_same(seq![a], a));
        assert(dedup_tys(aa) =~= seq![a]);
        assert(union_of_v(s1, la) == a);
    } else {
        if contains_same(seq![a], b) {
            let i = choose|i: int| 0 <= i < 1 && same_ty(seq![a][i], b);
            assert(seq![a][i] == a);
            assert(false);
        }
        assert(dedup_tys(ab) =~= ab);
        let u = union_of_v(s2, ab);
        assert(u == (TypeV::Union { span: s2, types: ab }));
        let la = seq![u, a];
        assert(la[0] == u);
        assert(la.drop_first() =~= seq![a]);
        assert(flat_one(u) == ab);
        assert(flatten_unions(la) =~= seq![a, b, a]);
        let aba = seq![a, b, a];
        assert(aba.drop_last() =~= ab);
        assert(aba.last() == a);
        assert(contains_same(ab, a));
        assert(dedup_tys(aba) =~= dedup_tys(ab));
        assert(dedup_tys(flatten_unions(la)) == dedup_tys(ab));
        let lhs = union_of_v(s1, la);
        assert(lhs == (TypeV::Union { span: s1, types: ab }));
        assert(strip_ty(lhs, false) == strip_ty(u, false));
    }
}

pub proof fn lemma_view_tys_snoc(p: Seq<Type>, x: Type)
    ensures
        view_tys(p.push(x)) == view_tys(p) + seq![view_ty(x)],
    decreases p.len(),
{
    if p.len() == 0 {
        assert(p.push(x)[0] == x);
        assert(p.push(x).drop_first() =~= Seq::<Type>::empty());
        assert(view_tys(Seq::<Type>::empty()) == Seq::<TypeV>::empty());
        assert(view_tys(p.push(x)) =~= view_tys(p) + seq![view_ty(x)]);
    } else {
        lemma_view_tys_snoc(p.drop_first(), x);
        assert(p.push(x)[0] == p[0]);
        assert(p.push(x).drop_first() =~= p.drop_first().push(x));
        assert(view_tys(p.push(x)) =~= view_tys(p) + seq![view_ty(x)]);
    }
}

} // verus!

