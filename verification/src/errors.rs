//! Diagnostics. Errors are values: the analyzer never aborts on one;
//! it records the error and substitutes `any` at the point of failure.
//! Each record is a kind together with the spans it is attributed to.

use vstd::prelude::*;

use crate::ty::Span;

verus! {

/// A diagnostic record.
#[derive(Debug)]
pub enum Error {
    /// A name did not resolve where resolution was required.
    UndefinedSymbol { span: Span },
    /// A call was made on a type with no call signature.
    NoCallSignature { span: Span },
    /// `new` was used on a type with no construct signature.
    NoNewSignature { span: Span },
    /// The number of arguments falls outside the accepted range.
    WrongParams { span: Span, callee: Span, min: usize, max: usize, actual: usize },
    /// The source type is not assignable to the target type.
    NotAssignable { span: Span, source: Span, target: Span },
    /// A run of bodyless `constructor` signatures has no implementation.
    ConstructorImplMissing { span: Span },
    /// A run of bodyless method signatures has no implementation.
    FnImplMissing { span: Span },
    /// A parameter property appears on a bodyless constructor.
    ParamPropWithoutBody { span: Span },
    /// A required parameter follows an optional one.
    OptionalAfterRequired { span: Span },
    /// A getter with a body contains no `return`.
    GetterWithoutReturn { span: Span },
    /// A computed property key is not of a literal type.
    ComputedKeyNotLiteral { span: Span },
    /// Every member of a union failed to accept a call.
    UnionError { span: Span, errors: Vec<Error> },
    /// A module could not be loaded.
    ModuleLoadFailed { span: Span },
    /// An import asked for a name the module does not export.
    NoSuchExport { span: Span, name: String },
    /// A `let` or `const` binding, or an export, was declared twice.
    Redeclared { span: Span },
    /// Several errors raised at one site, grouped for rendering.
    Grouped { span: Span, errors: Vec<Error> },
    /// A syntactic form the analyzer rejects as unsupported.
    Unsupported { span: Span },
}

pub ghost enum ErrorV {
    UndefinedSymbol { span: Span },
    NoCallSignature { span: Span },
    NoNewSignature { span: Span },
    WrongParams { span: Span, callee: Span, min: nat, max: nat, actual: nat },
    NotAssignable { span: Span, source: Span, target: Span },
    ConstructorImplMissing { span: Span },
    FnImplMissing { span: Span },
    ParamPropWithoutBody { span: Span },
    OptionalAfterRequired { span: Span },
    GetterWithoutReturn { span: Span },
    ComputedKeyNotLiteral { span: Span },
    UnionError { span: Span, errors: Seq<ErrorV> },
    ModuleLoadFailed { span: Span },
    NoSuchExport { span: Span, name: Seq<char> },
    Redeclared { span: Span },
    Grouped { span: Span, errors: Seq<ErrorV> },
    Unsupported { span: Span },
}

pub open spec fn view_err(e: Error) -> ErrorV
    decreases e,
{
    match e {
        Error::UndefinedSymbol { span } => ErrorV::UndefinedSymbol { span },
        Error::NoCallSignature { span } => ErrorV::NoCallSignature { span },
        Error::NoNewSignature { span } => ErrorV::NoNewSignature { span },
        Error::WrongParams { span, callee, min, max, actual } => ErrorV::WrongParams {
            span,
            callee,
            min: min as nat,
            max: max as nat,
            actual: actual as nat,
        },
        Error::NotAssignable { span, source, target } => ErrorV::NotAssignable {
            span,
            source,
            target,
        },
        Error::ConstructorImplMissing { span } => ErrorV::ConstructorImplMissing { span },
        Error::FnImplMissing { span } => ErrorV::FnImplMissing { span },
        Error::ParamPropWithoutBody { span } => ErrorV::ParamPropWithoutBody { span },
        Error::OptionalAfterRequired { span } => ErrorV::OptionalAfterRequired { span },
        Error::GetterWithoutReturn { span } => ErrorV::GetterWithoutReturn { span },
        Error::ComputedKeyNotLiteral { span } => ErrorV::ComputedKeyNotLiteral { span },
        Error::UnionError { span, errors } => ErrorV::UnionError {
            span,
            errors: view_errs(errors@),
        },
        Error::ModuleLoadFailed { span } => ErrorV::ModuleLoadFailed { span },
        Error::NoSuchExport { span, name } => ErrorV::NoSuchExport { span, name: name@ },
        Error::Redeclared { span } => ErrorV::Redeclared { span },
        Error::Grouped { span, errors } => ErrorV::Grouped { span, errors: view_errs(errors@) },
        Error::Unsupported { span } => ErrorV::Unsupported { span },
    }
}

pub open spec fn view_errs(es: Seq<Error>) -> Seq<ErrorV>
    decreases es,
{
    if es.len() == 0 {
        Seq::empty()
    } else {
        seq![view_err(es[0])] + view_errs(es.drop_first())
    }
}

impl View for Error {
    type V = ErrorV;

    open spec fn view(&self) -> ErrorV {
        view_err(*self)
    }
}

pub proof fn lemma_view_errs(s: Seq<Error>)
    ensures
        view_errs(s).len() == s.len(),
        forall|i: int| 0 <= i < s.len() ==> view_errs(s)[i] == view_err(s[i]),
    decreases s.len(),
{
    if s.len() > 0 {
        lemma_view_errs(s.drop_first());
        assert forall|i: int| 0 <= i < s.len() implies view_errs(s)[i] == view_err(s[i]) by {
            if i > 0 {
                assert(s.drop_first()[i - 1] == s[i]);
            }
        }
    }
}

pub proof fn lemma_view_errs_snoc(p: Seq<Error>, x: Error)
    ensures
        view_errs(p.push(x)) == view_errs(p) + seq![view_err(x)],
    decreases p.len(),
{
    if p.len() == 0 {
        assert(p.push(x)[0] == x);
        assert(p.push(x).drop_first() =~= Seq::<Error>::empty());
        assert(view_errs(Seq::<Error>::empty()) == Seq::<ErrorV>::empty());
        assert(view_errs(p.push(x)) =~= view_errs(p) + seq![view_err(x)]);
    } else {
        lemma_view_errs_snoc(p.drop_first(), x);
        assert(p.push(x)[0] == p[0]);
        assert(p.push(x).drop_first() =~= p.drop_first().push(x));
        assert(view_errs(p.push(x)) =~= view_errs(p) + seq![view_err(x)]);
    }
}

impl Error {
    /// The primary span the diagnostic points at.
    pub fn primary_span(&self) -> (r: Span)
        ensures
            r == err_span(self@),
    {
        match self {
            Error::UndefinedSymbol { span } => *span,
            Error::NoCallSignature { span } => *span,
            Error::NoNewSignature { span } => *span,
            Error::WrongParams { span, .. } => *span,
            Error::NotAssignable { span, .. } => *span,
            Error::ConstructorImplMissing { span } => *span,
            Error::FnImplMissing { span } => *span,
            Error::ParamPropWithoutBody { span } => *span,
            Error::OptionalAfterRequired { span } => *span,
            Error::GetterWithoutReturn { span } => *span,
            Error::ComputedKeyNotLiteral { span } => *span,
            Error::UnionError { span, .. } => *span,
            Error::ModuleLoadFailed { span } => *span,
            Error::NoSuchExport { span, .. } => *span,
            Error::Redeclared { span } => *span,
            Error::Grouped { span, .. } => *span,
            Error::Unsupported { span } => *span,
        }
    }
}

pub open spec fn err_span(e: ErrorV) -> Span {
    match e {
        ErrorV::UndefinedSymbol { span } => span,
        ErrorV::NoCallSignature { span } => span,
        ErrorV::NoNewSignature { span } => span,
        ErrorV::WrongParams { span, .. } => span,
        ErrorV::NotAssignable { span, .. } => span,
        ErrorV::ConstructorImplMissing { span } => span,
        ErrorV::FnImplMissing { span } => span,
        ErrorV::ParamPropWithoutBody { span } => span,
        ErrorV::OptionalAfterRequired { span } => span,
        ErrorV::GetterWithoutReturn { span } => span,
        ErrorV::ComputedKeyNotLiteral { span } => span,
        ErrorV::UnionError { span, .. } => span,
        ErrorV::ModuleLoadFailed { span } => span,
        ErrorV::NoSuchExport { span, .. } => span,
        ErrorV::Redeclared { span } => span,
        ErrorV::Grouped { span, .. } => span,
        ErrorV::Unsupported { span } => span,
    }
}

/// Structural equality of diagnostics, spans included.
pub fn err_eq(a: &Error, b: &Error) -> (r: bool)
    ensures
        r == (a@ == b@),
    decreases *a,
{
    match (a, b) {
        (Error::UndefinedSymbol { span: s1 }, Error::UndefinedSymbol { span: s2 }) => *s1 == *s2,
        (Error::NoCallSignature { span: s1 }, Error::NoCallSignature { span: s2 }) => *s1 == *s2,
        (Error::NoNewSignature { span: s1 }, Error::NoNewSignature { span: s2 }) => *s1 == *s2,
        (
            Error::WrongParams { span: s1, callee: c1, min: m1, max: x1, actual: a1 },
            Error::WrongParams { span: s2, callee: c2, min: m2, max: x2, actual: a2 },
        ) => *s1 == *s2 && *c1 == *c2 && *m1 == *m2 && *x1 == *x2 && *a1 == *a2,
        (
            Error::NotAssignable { span: s1, source: so1, target: t1 },
            Error::NotAssignable { span: s2, source: so2, target: t2 },
        ) => *s1 == *s2 && *so1 == *so2 && *t1 == *t2,
        (
            Error::ConstructorImplMissing { span: s1 },
            Error::ConstructorImplMissing { span: s2 },
        ) => *s1 == *s2,
        (Error::FnImplMissing { span: s1 }, Error::FnImplMissing { span: s2 }) => *s1 == *s2,
        (
            Error::ParamPropWithoutBody { span: s1 },
            Error::ParamPropWithoutBody { span: s2 },
        ) => *s1 == *s2,
        (
            Error::OptionalAfterRequired { span: s1 },
            Error::OptionalAfterRequired { span: s2 },
        ) => *s1 == *s2,
        (
            Error::GetterWithoutReturn { span: s1 },
            Error::GetterWithoutReturn { span: s2 },
        ) => *s1 == *s2,
        (
            Error::ComputedKeyNotLiteral { span: s1 },
            Error::ComputedKeyNotLiteral { span: s2 },
        ) => *s1 == *s2,
        (
            Error::UnionError { span: s1, errors: e1 },
            Error::UnionError { span: s2, errors: e2 },
        ) => *s1 == *s2 && errs_eq(e1, e2),
        (Error::ModuleLoadFailed { span: s1 }, Error::ModuleLoadFailed { span: s2 }) => *s1 == *s2,
        (
            Error::NoSuchExport { span: s1, name: n1 },
            Error::NoSuchExport { span: s2, name: n2 },
        ) => *s1 == *s2 && *n1 == *n2,
        (Error::Redeclared { span: s1 }, Error::Redeclared { span: s2 }) => *s1 == *s2,
        (
            Error::Grouped { span: s1, errors: e1 },
            Error::Grouped { span: s2, errors: e2 },
        ) => *s1 == *s2 && errs_eq(e1, e2),
        (Error::Unsupported { span: s1 }, Error::Unsupported { span: s2 }) => *s1 == *s2,
        _ => {
            proof {
                broadcast use lemma_err_view_tag;

            }
            false
        },
    }
}

/// Structural equality of two diagnostic lists.
pub fn errs_eq(a: &Vec<Error>, b: &Vec<Error>) -> (r: bool)
    ensures
        r == (view_errs(a@) == view_errs(b@)),
    decreases *a,
{
    proof {
        lemma_view_errs(a@);
        lemma_view_errs(b@);
    }
    if a.len() != b.len() {
        return false;
    }
    let n = a.len();
    let mut i: usize = 0;
    while i < n
        invariant
            n == a.len(),
            a@.len() == b@.len(),
            i <= n,
            forall|j: int| 0 <= j < i ==> a@[j]@ == b@[j]@,
        decreases n - i,
    {
        if !err_eq(&a[i], &b[i]) {
            proof {
                lemma_view_errs(a@);
                lemma_view_errs(b@);
                assert(view_errs(a@)[i as int] == view_err(a@[i as int]));
                assert(view_errs(b@)[i as int] == view_err(b@[i as int]));
            }
            return false;
        }
        i += 1;
    }
    proof {
        lemma_view_errs(a@);
        lemma_view_errs(b@);
        assert forall|j: int| 0 <= j < a@.len() implies view_errs(a@)[j] == view_errs(b@)[j] by {
            assert(view_errs(a@)[j] == view_err(a@[j]));
            assert(view_errs(b@)[j] == view_err(b@[j]));
        }
        assert(view_errs(a@) =~= view_errs(b@));
    }
    true
}

pub open spec fn err_tag(e: ErrorV) -> int {
    match e {
        ErrorV::UndefinedSymbol { .. } => 0,
        ErrorV::NoCallSignature { .. } => 1,
        ErrorV::NoNewSignature { .. } => 2,
        ErrorV::WrongParams { .. } => 3,
        ErrorV::NotAssignable { .. } => 4,
        ErrorV::ConstructorImplMissing { .. } => 5,
        ErrorV::FnImplMissing { .. } => 6,
        ErrorV::ParamPropWithoutBody { .. } => 7,
        ErrorV::OptionalAfterRequired { .. } => 8,
        ErrorV::GetterWithoutReturn { .. } => 9,
        ErrorV::ComputedKeyNotLiteral { .. } => 10,
        ErrorV::UnionError { .. } => 11,
        ErrorV::ModuleLoadFailed { .. } => 12,
        ErrorV::NoSuchExport { .. } => 13,
        ErrorV::Redeclared { .. } => 14,
        ErrorV::Grouped { .. } => 15,
        ErrorV::Unsupported { .. } => 16,
    }
}

pub open spec fn err_exec_tag(e: Error) -> int {
    match e {
        Error::UndefinedSymbol { .. } => 0,
        Error::NoCallSignature { .. } => 1,
        Error::NoNewSignature { .. } => 2,
        Error::WrongParams { .. } => 3,
        Error::NotAssignable { .. } => 4,
        Error::ConstructorImplMissing { .. } => 5,
        Error::FnImplMissing { .. } => 6,
        Error::ParamPropWithoutBody { .. } => 7,
        Error::OptionalAfterRequired { .. } => 8,
        Error::GetterWithoutReturn { .. } => 9,
        Error::ComputedKeyNotLiteral { .. } => 10,
        Error::UnionError { .. } => 11,
        Error::ModuleLoadFailed { .. } => 12,
        Error::NoSuchExport { .. } => 13,
        Error::Redeclared { .. } => 14,
        Error::Grouped { .. } => 15,
        Error::Unsupported { .. } => 16,
    }
}

pub broadcast proof fn lemma_err_view_tag(e: Error)
    ensures
        err_tag(#[trigger] view_err(e)) == err_exec_tag(e),
{
    match e {
        Error::UndefinedSymbol { .. } => {},
        Error::NoCallSignature { .. } => {},
        Error::NoNewSignature { .. } => {},
        Error::WrongParams { .. } => {},
        Error::NotAssignable { .. } => {},
        Error::ConstructorImplMissing { .. } => {},
        Error::FnImplMissing { .. } => {},
        Error::ParamPropWithoutBody { .. } => {},
        Error::OptionalAfterRequired { .. } => {},
        Error::GetterWithoutReturn { .. } => {},
        Error::ComputedKeyNotLiteral { .. } => {},
        Error::UnionError { .. } => {},
        Error::ModuleLoadFailed { .. } => {},
        Error::NoSuchExport { .. } => {},
        Error::Redeclared { .. } => {},
        Error::Grouped { .. } => {},
        Error::Unsupported { .. } => {},
    }
}

} // verus!
