//! Class body validation: overload grouping, constructor parameter
//! properties, optional-parameter order, getters without returns, and
//! computed property keys.

use vstd::prelude::*;

use crate::ast::{ClassMember, CtorParam, Expr, MemberKey, MethodKind, Param, Stmt};
use crate::errors::{view_err, view_errs, Error, ErrorV};
use crate::ty::{LitValue, PropKey, PropKeyV, Span};

verus! {

// ------------------------------------------------------------------
// Key equality for grouping.
// ------------------------------------------------------------------

/// Are two member keys the same name? Identifier and string keys
/// compare by their text; numeric keys match a textual key only when
/// the text is the number's decimal form; computed keys never match.
pub open spec fn keys_group_eq(l: PropKeyV, r: PropKeyV) -> bool {
    key_text(l) == key_text(r)
}

/// The text of a key: the identifier or string itself, or the decimal
/// form of a numeric key.
pub open spec fn key_text(k: PropKeyV) -> Seq<char> {
    match k {
        PropKeyV::Ident { name, .. } => name,
        PropKeyV::StrKey { value, .. } => value,
        PropKeyV::NumKey { value, .. } => dec_chars(value as int),
    }
}

/// The decimal digits of a non-negative integer.
pub open spec fn dec_digits(n: nat) -> Seq<char>
    decreases n,
{
    if n < 10 {
        seq![digit_char(n)]
    } else {
        dec_digits(n / 10).push(digit_char(n % 10))
    }
}

/// The decimal form of an integer, with a sign for negatives.
pub open spec fn dec_chars(n: int) -> Seq<char> {
    if n < 0 {
        seq!['-'] + dec_digits((-n) as nat)
    } else {
        dec_digits(n as nat)
    }
}

pub open spec fn digit_char(d: nat) -> char {
    if d == 0 {
        '0'
    } else if d == 1 {
        '1'
    } else if d == 2 {
        '2'
    } else if d == 3 {
        '3'
    } else if d == 4 {
        '4'
    } else if d == 5 {
        '5'
    } else if d == 6 {
        '6'
    } else if d == 7 {
        '7'
    } else if d == 8 {
        '8'
    } else {
        '9'
    }
}

fn digit_char_exec(d: u64) -> (r: char)
    requires
        d < 10,
    ensures
        r == digit_char(d as nat),
{
    if d == 0 {
        '0'
    } else if d == 1 {
        '1'
    } else if d == 2 {
        '2'
    } else if d == 3 {
        '3'
    } else if d == 4 {
        '4'
    } else if d == 5 {
        '5'
    } else if d == 6 {
        '6'
    } else if d == 7 {
        '7'
    } else if d == 8 {
        '8'
    } else {
        '9'
    }
}

/// The decimal digits of `n`, appended to `out`.
fn push_dec_digits(n: u64, out: &mut Vec<char>)
    ensures
        final(out)@ == old(out)@ + dec_digits(n as nat),
    decreases n,
{
    if n < 10 {
        let c = digit_char_exec(n);
        out.push(c);
        proof {
            assert(old(out)@ + dec_digits(n as nat) =~= old(out)@.push(digit_char(n as nat)));
        }
    } else {
        push_dec_digits(n / 10, out);
        let c = digit_char_exec(n % 10);
        out.push(c);
        proof {
            assert(old(out)@ + dec_digits(n as nat) =~= (old(out)@ + dec_digits(
                (n / 10) as nat,
            )).push(digit_char((n % 10) as nat)));
        }
    }
}

/// The decimal form of `n` as characters.
fn dec_chars_exec(n: i64) -> (r: Vec<char>)
    ensures
        r@ == dec_chars(n as int),
{
    let mut out: Vec<char> = Vec::new();
    if n < 0 {
        out.push('-');
        let m: u64 = if n == i64::MIN {
            9223372036854775808u64
        } else {
            (-n) as u64
        };
        proof {
            assert(m as nat == (-(n as int)) as nat);
        }
        push_dec_digits(m, &mut out);
        proof {
            assert(out@ =~= dec_chars(n as int));
        }
    } else {
        push_dec_digits(n as u64, &mut out);
        proof {
            assert(Seq::<char>::empty() + dec_digits((n as u64) as nat) =~= dec_digits(
                (n as u64) as nat,
            ));
            assert(out@ =~= dec_chars(n as int));
        }
    }
    out
}

/// The text of a member key.
fn key_text_exec(k: &PropKey) -> (r: Vec<char>)
    ensures
        r@ == key_text(k@),
{
    match k {
        PropKey::Ident { name, .. } => {
            let mut out: Vec<char> = Vec::new();
            let st = name.as_str();
            let n = st.unicode_len();
            let mut i: usize = 0;
            while i < n
                invariant
                    n == name@.len(),
                    st@ == name@,
                    i <= n,
                    out@ == name@.take(i as int),
                decreases n - i,
            {
                let c = st.get_char(i);
                out.push(c);
                i += 1;
                proof {
                    assert(out@ =~= name@.take(i as int));
                }
            }
            proof {
                assert(name@.take(n as int) =~= name@);
            }
            out
        },
        PropKey::StrKey { value, .. } => {
            let mut out: Vec<char> = Vec::new();
            let st = value.as_str();
            let n = st.unicode_len();
            let mut i: usize = 0;
            while i < n
                invariant
                    n == value@.len(),
                    st@ == value@,
                    i <= n,
                    out@ == value@.take(i as int),
                decreases n - i,
            {
                let c = st.get_char(i);
                out.push(c);
                i += 1;
                proof {
                    assert(out@ =~= value@.take(i as int));
                }
            }
            proof {
                assert(value@.take(n as int) =~= value@);
            }
            out
        },
        PropKey::NumKey { value, .. } => dec_chars_exec(*value),
    }
}

/// Do two member keys name the same group?
pub fn is_prop_name_eq(l: &PropKey, r: &PropKey) -> (res: bool)
    ensures
        res == keys_group_eq(l@, r@),
{
    let lt = key_text_exec(l);
    let rt = key_text_exec(r);
    if lt.len() != rt.len() {
        return false;
    }
    let n = lt.len();
    let mut i: usize = 0;
    while i < n
        invariant
            n == lt@.len(),
            lt@.len() == rt@.len(),
            lt@ == key_text(l@),
            rt@ == key_text(r@),
            i <= n,
            forall|j: int| 0 <= j < i ==> lt@[j] == rt@[j],
        decreases n - i,
    {
        if lt[i] != rt[i] {
            return false;
        }
        i += 1;
    }
    proof {
        assert(lt@ =~= rt@);
    }
    true
}

// ------------------------------------------------------------------
// Overload grouping (§4.5).
// ------------------------------------------------------------------

/// The key and body of a groupable member (a constructor or a method
/// under a plain key); `None` for everything else.
pub open spec fn group_entry(m: ClassMember) -> Option<(PropKeyV, bool, Span)> {
    match m {
        ClassMember::Constructor { key_span, body, .. } => Option::Some(
            (
                PropKeyV::Ident { span: key_span, name: ctor_name() },
                body is Some,
                key_span,
            ),
        ),
        ClassMember::Method { key: MemberKey::Plain(k), func, .. } => Option::Some(
            (k@, func.body is Some, key_span_of(k@)),
        ),
        _ => Option::None,
    }
}

pub open spec fn ctor_name() -> Seq<char> {
    "constructor"@
}

pub open spec fn key_span_of(k: PropKeyV) -> Span {
    match k {
        PropKeyV::Ident { span, .. } => span,
        PropKeyV::StrKey { span, .. } => span,
        PropKeyV::NumKey { span, .. } => span,
    }
}

/// The state of the grouping scan: the pending bodyless signatures'
/// name and spans.
pub ghost struct GroupState {
    pub name: Option<PropKeyV>,
    pub spans: Seq<Span>,
}

/// One step of the grouping scan (§4.5, §8): a bodyless member whose
/// name differs from the pending one flushes the pending run as one
/// missing function implementation at its last signature; a
/// body-bearing member under the pending name closes the group; a
/// body-bearing member under another name flushes the pending run as
/// one missing constructor implementation when the pending name was
/// `constructor`, else as one missing function implementation.
pub open spec fn group_step(st: GroupState, m: ClassMember) -> (GroupState, Seq<ErrorV>) {
    match group_entry(m) {
        Option::None => (st, Seq::empty()),
        Option::Some((key, has_body, kspan)) => {
            if !has_body {
                if st.name matches Option::Some(p) && !keys_group_eq(p, key) {
                    (
                        GroupState { name: Option::Some(key), spans: seq![kspan] },
                        fn_impl_missing_flush(st.spans),
                    )
                } else {
                    (
                        GroupState { name: Option::Some(key), spans: st.spans.push(kspan) },
                        Seq::empty(),
                    )
                }
            } else {
                match st.name {
                    Option::None => (
                        GroupState { name: Option::None, spans: Seq::empty() },
                        Seq::empty(),
                    ),
                    Option::Some(p) => {
                        if keys_group_eq(p, key) {
                            (
                                GroupState { name: Option::None, spans: Seq::empty() },
                                Seq::empty(),
                            )
                        } else if key_text(p) == ctor_name() {
                            (
                                GroupState { name: Option::None, spans: Seq::empty() },
                                ctor_impl_missing_flush(st.spans),
                            )
                        } else {
                            (
                                GroupState { name: Option::None, spans: Seq::empty() },
                                fn_impl_missing_flush(st.spans),
                            )
                        }
                    },
                }
            }
        },
    }
}

/// One missing-function-implementation diagnostic for a pending run,
/// at the last signature (§8): none when nothing is pending.
pub open spec fn fn_impl_missing_flush(spans: Seq<Span>) -> Seq<ErrorV> {
    if spans.len() == 0 {
        Seq::empty()
    } else {
        seq![ErrorV::FnImplMissing { span: spans.last() }]
    }
}

/// One missing-constructor-implementation diagnostic for a pending
/// run, at the last signature.
pub open spec fn ctor_impl_missing_flush(spans: Seq<Span>) -> Seq<ErrorV> {
    if spans.len() == 0 {
        Seq::empty()
    } else {
        seq![ErrorV::ConstructorImplMissing { span: spans.last() }]
    }
}

/// The grouping scan over a member list, from an initial state.
pub open spec fn group_scan(st: GroupState, ms: Seq<ClassMember>) -> (GroupState, Seq<ErrorV>)
    decreases ms.len(),
{
    if ms.len() == 0 {
        (st, Seq::empty())
    } else {
        let (st1, errs1) = group_step(st, ms[0]);
        let (st2, errs2) = group_scan(st1, ms.drop_first());
        (st2, errs1 + errs2)
    }
}

/// The diagnostics overload grouping raises for a class body: the
/// scan's errors, and one missing implementation, at the last
/// signature, for a run still pending at the end. In an ambient
/// (`declare`) class nothing is enforced.
pub open spec fn spec_class_group_errors(ms: Seq<ClassMember>, declare: bool) -> Seq<ErrorV> {
    if declare {
        Seq::empty()
    } else {
        let st0 = GroupState { name: Option::None, spans: Seq::empty() };
        let (st, errs) = group_scan(st0, ms);
        errs + fn_impl_missing_flush(st.spans)
    }
}

proof fn lemma_group_scan_snoc(st: GroupState, ms: Seq<ClassMember>, x: ClassMember)
    ensures
        group_scan(st, ms.push(x)) == ({
            let (st1, e1) = group_scan(st, ms);
            let (st2, e2) = group_step(st1, x);
            (st2, e1 + e2)
        }),
    decreases ms.len(),
{
    if ms.len() == 0 {
        assert(ms.push(x)[0] == x);
        assert(ms.push(x).drop_first() =~= Seq::<ClassMember>::empty());
        let (sta, ea) = group_step(st, x);
        assert(group_scan(sta, Seq::<ClassMember>::empty()) == (
            sta,
            Seq::<ErrorV>::empty(),
        ));
        assert(group_scan(st, ms) == (st, Seq::<ErrorV>::empty()));
        assert(ea + Seq::<ErrorV>::empty() =~= Seq::<ErrorV>::empty() + ea);
    } else {
        lemma_group_scan_snoc(group_step(st, ms[0]).0, ms.drop_first(), x);
        assert(ms.push(x)[0] == ms[0]);
        assert(ms.push(x).drop_first() =~= ms.drop_first().push(x));
        let (st1, e1) = group_step(st, ms[0]);
        let (st2, e2) = group_scan(st1, ms.drop_first());
        let (st3, e3) = group_step(st2, x);
        assert(group_scan(st, ms.push(x)).1 =~= (e1 + e2) + e3);
    }
}

/// The exec mirror of the grouping state.
struct GroupCursor {
    pending: Option<PropKey>,
    spans: Vec<Span>,
}

/// Appends the one missing-function-implementation error a pending
/// run owes.
fn push_fn_impl_missing(errors: &mut Vec<Error>, spans: &Vec<Span>)
    ensures
        view_errs(final(errors)@) == view_errs(old(errors)@) + fn_impl_missing_flush(spans@),
{
    let ghost base = errors@;
    if spans.len() == 0 {
        proof {
            assert(view_errs(errors@) =~= view_errs(base) + fn_impl_missing_flush(spans@));
        }
        return;
    }
    let n = spans.len();
    errors.push(Error::FnImplMissing { span: spans[n - 1] });
    proof {
        crate::errors::lemma_view_errs_snoc(base, errors@.last());
        assert(errors@ =~= base.push(errors@.last()));
        assert(view_errs(errors@) =~= view_errs(base) + fn_impl_missing_flush(spans@));
    }
}

/// Appends the one missing-constructor-implementation error a pending
/// run owes.
fn push_ctor_impl_missing(errors: &mut Vec<Error>, spans: &Vec<Span>)
    ensures
        view_errs(final(errors)@) == view_errs(old(errors)@) + ctor_impl_missing_flush(spans@),
{
    let ghost base = errors@;
    if spans.len() == 0 {
        proof {
            assert(view_errs(errors@) =~= view_errs(base) + ctor_impl_missing_flush(spans@));
        }
        return;
    }
    let n = spans.len();
    errors.push(Error::ConstructorImplMissing { span: spans[n - 1] });
    proof {
        crate::errors::lemma_view_errs_snoc(base, errors@.last());
        assert(errors@ =~= base.push(errors@.last()));
        assert(view_errs(errors@) =~= view_errs(base) + ctor_impl_missing_flush(spans@));
    }
}

/// Overload grouping (§4.5): reports the missing implementations a
/// class body owes.
pub fn validate_class_members(body: &Vec<ClassMember>, declare: bool) -> (r: Vec<Error>)
    ensures
        view_errs(r@) == spec_class_group_errors(body@, declare),
{
    let mut errors: Vec<Error> = Vec::new();
    if declare {
        proof {
            assert(view_errs(errors@) =~= Seq::<ErrorV>::empty());
        }
        return errors;
    }
    let mut cur = GroupCursor { pending: Option::None, spans: Vec::new() };
    let ghost st0 = GroupState { name: Option::None, spans: Seq::empty() };
    let n = body.len();
    let mut i: usize = 0;
    proof {
        assert(body@.take(0) =~= Seq::<ClassMember>::empty());
        assert(view_errs(errors@) =~= Seq::<ErrorV>::empty());
        assert(group_scan(st0, body@.take(0)) == (st0, Seq::<ErrorV>::empty()));
    }
    while i < n
        invariant
            n == body@.len(),
            i <= n,
            (match cur.pending {
                Option::Some(k) => group_scan(st0, body@.take(i as int)).0.name
                    == Option::Some(k@),
                Option::None => group_scan(st0, body@.take(i as int)).0.name is None,
            }),
            cur.spans@ == group_scan(st0, body@.take(i as int)).0.spans,
            view_errs(errors@) == group_scan(st0, body@.take(i as int)).1,
        decreases n - i,
    {
        proof {
            lemma_group_scan_snoc(st0, body@.take(i as int), body@[i as int]);
            assert(body@.take(i as int).push(body@[i as int]) =~= body@.take(i + 1));
        }
        let entry: Option<(PropKey, bool, Span)> = match &body[i] {
            ClassMember::Constructor { key_span, body: cbody, .. } => Option::Some(
                (
                    PropKey::Ident { span: *key_span, name: String::from_str("constructor") },
                    match cbody {
                        Option::Some(..) => true,
                        Option::None => false,
                    },
                    *key_span,
                ),
            ),
            ClassMember::Method { key: MemberKey::Plain(k), func, .. } => {
                let ks = match k {
                    PropKey::Ident { span, .. } => *span,
                    PropKey::StrKey { span, .. } => *span,
                    PropKey::NumKey { span, .. } => *span,
                };
                Option::Some(
                    (
                        crate::ty::dup_key(k),
                        match &func.body {
                            Option::Some(..) => true,
                            Option::None => false,
                        },
                        ks,
                    ),
                )
            },
            _ => Option::None,
        };
        match entry {
            Option::None => {
                proof {
                    match body@[i as int] {
                        ClassMember::Constructor { .. } => {
                            assert(false);
                        },
                        ClassMember::Method { key: MemberKey::Plain(..), .. } => {
                            assert(false);
                        },
                        _ => {},
                    }
                }
            },
            Option::Some((key, has_body, kspan)) => {
                if !has_body {
                    let flush = match &cur.pending {
                        Option::Some(p) => !is_prop_name_eq(p, &key),
                        Option::None => false,
                    };
                    if flush {
                        push_fn_impl_missing(&mut errors, &cur.spans);
                        cur.spans = Vec::new();
                        cur.spans.push(kspan);
                        cur.pending = Option::Some(key);
                        proof {
                            assert(cur.spans@ =~= seq![kspan]);
                        }
                    } else {
                        cur.spans.push(kspan);
                        cur.pending = Option::Some(key);
                    }
                } else {
                    match &cur.pending {
                        Option::None => {
                            cur.pending = Option::None;
                            cur.spans = Vec::new();
                            proof {
                                assert(cur.spans@ =~= Seq::<Span>::empty());
                            }
                        },
                        Option::Some(p) => {
                            if is_prop_name_eq(p, &key) {
                            } else {
                                let ctor_key = PropKey::Ident {
                                    span: crate::ty::Span { lo: 0, hi: 0 },
                                    name: String::from_str("constructor"),
                                };
                                if is_prop_name_eq(p, &ctor_key) {
                                    proof {
                                        assert(key_text((cur.pending->0)@) == ctor_name());
                                    }
                                    push_ctor_impl_missing(&mut errors, &cur.spans);
                                } else {
                                    push_fn_impl_missing(&mut errors, &cur.spans);
                                }
                            }
                            cur.pending = Option::None;
                            cur.spans = Vec::new();
                            proof {
                                assert(cur.spans@ =~= Seq::<Span>::empty());
                            }
                        },
                    }
                }
            },
        }
        i += 1;
    }
    proof {
        assert(body@.take(n as int) =~= body@);
    }
    push_fn_impl_missing(&mut errors, &cur.spans);
    errors
}

// ------------------------------------------------------------------
// Optional-parameter order (§4.5).
// ------------------------------------------------------------------

/// The errors of the parameter scan: a required parameter that
/// follows an optional one is reported at its span.
pub open spec fn opt_order_scan(ps: Seq<Param>, has_opt: bool) -> Seq<ErrorV>
    decreases ps.len(),
{
    if ps.len() == 0 {
        Seq::empty()
    } else {
        (if !ps[0].optional && has_opt {
            seq![ErrorV::OptionalAfterRequired { span: ps[0].span }]
        } else {
            Seq::empty()
        }) + opt_order_scan(ps.drop_first(), has_opt || ps[0].optional)
    }
}

/// A required parameter may not follow an optional one (§4.5).
pub open spec fn spec_optional_order_errors(ps: Seq<Param>) -> Seq<ErrorV> {
    opt_order_scan(ps, false)
}

fn opt_order_from(ps: &Vec<Param>, has_opt: bool, i: usize) -> (r: Vec<Error>)
    requires
        i <= ps@.len(),
    ensures
        view_errs(r@) == opt_order_scan(ps@.skip(i as int), has_opt),
    decreases ps@.len() - i,
{
    if i == ps.len() {
        let out: Vec<Error> = Vec::new();
        proof {
            assert(ps@.skip(i as int) =~= Seq::<Param>::empty());
            assert(view_errs(out@) =~= Seq::<ErrorV>::empty());
        }
        return out;
    }
    proof {
        assert(ps@.skip(i as int)[0] == ps@[i as int]);
        assert(ps@.skip(i as int).drop_first() =~= ps@.skip(i + 1));
    }
    let p_opt = ps[i].optional;
    let rest = opt_order_from(ps, has_opt || p_opt, i + 1);
    if !p_opt && has_opt {
        let h = Error::OptionalAfterRequired { span: ps[i].span };
        let ghost hv = h@;
        let ghost restseq = rest@;
        let mut out = rest;
        out.insert(0, h);
        proof {
            crate::errors::lemma_view_errs(out@);
            crate::errors::lemma_view_errs(restseq);
            assert(out@[0] == h);
            assert(out@.drop_first() =~= restseq);
            assert(view_errs(out@) =~= seq![hv] + view_errs(restseq));
        }
        out
    } else {
        rest
    }
}

/// Checks the optional-parameter order of a parameter list.
pub fn validate_optional_order(ps: &Vec<Param>) -> (r: Vec<Error>)
    ensures
        view_errs(r@) == spec_optional_order_errors(ps@),
{
    proof {
        assert(ps@.skip(0) =~= ps@);
    }
    opt_order_from(ps, false, 0)
}

// ------------------------------------------------------------------
// Parameter properties (§4.5) and getters without returns.
// ------------------------------------------------------------------

/// A parameter property on a bodyless constructor is an error at the
/// parameter's span.
pub open spec fn ctor_prop_scan(ps: Seq<CtorParam>) -> Seq<ErrorV>
    decreases ps.len(),
{
    if ps.len() == 0 {
        Seq::empty()
    } else {
        (if ps[0].is_param_prop {
            seq![ErrorV::ParamPropWithoutBody { span: ps[0].span }]
        } else {
            Seq::empty()
        }) + ctor_prop_scan(ps.drop_first())
    }
}

/// The parameter-property errors a class body owes: for each bodyless
/// constructor, each parameter property is reported.
pub open spec fn spec_ctor_prop_errors(ms: Seq<ClassMember>) -> Seq<ErrorV>
    decreases ms.len(),
{
    if ms.len() == 0 {
        Seq::empty()
    } else {
        (match ms[0] {
            ClassMember::Constructor { params, body: Option::None, .. } => ctor_prop_scan(
                params@,
            ),
            _ => Seq::empty(),
        }) + spec_ctor_prop_errors(ms.drop_first())
    }
}

fn ctor_prop_from(ps: &Vec<CtorParam>, i: usize) -> (r: Vec<Error>)
    requires
        i <= ps@.len(),
    ensures
        view_errs(r@) == ctor_prop_scan(ps@.skip(i as int)),
    decreases ps@.len() - i,
{
    if i == ps.len() {
        let out: Vec<Error> = Vec::new();
        proof {
            assert(ps@.skip(i as int) =~= Seq::<CtorParam>::empty());
            assert(view_errs(out@) =~= Seq::<ErrorV>::empty());
        }
        return out;
    }
    proof {
        assert(ps@.skip(i as int)[0] == ps@[i as int]);
        assert(ps@.skip(i as int).drop_first() =~= ps@.skip(i + 1));
    }
    let rest = ctor_prop_from(ps, i + 1);
    if ps[i].is_param_prop {
        let h = Error::ParamPropWithoutBody { span: ps[i].span };
        let ghost hv = h@;
        let ghost restseq = rest@;
        let mut out = rest;
        out.insert(0, h);
        proof {
            crate::errors::lemma_view_errs(out@);
            crate::errors::lemma_view_errs(restseq);
            assert(out@[0] == h);
            assert(out@.drop_first() =~= restseq);
            assert(view_errs(out@) =~= seq![hv] + view_errs(restseq));
        }
        out
    } else {
        rest
    }
}

pub fn concat_errors(a: Vec<Error>, b: Vec<Error>) -> (r: Vec<Error>)
    ensures
        view_errs(r@) == view_errs(a@) + view_errs(b@),
{
    let ghost aseq = a@;
    let ghost bseq = b@;
    let mut out = a;
    let mut b2 = b;
    out.append(&mut b2);
    proof {
        crate::errors::lemma_view_errs(out@);
        crate::errors::lemma_view_errs(aseq);
        crate::errors::lemma_view_errs(bseq);
        assert forall|j: int| 0 <= j < out@.len() implies view_errs(out@)[j] == (view_errs(aseq)
            + view_errs(bseq))[j] by {
            if j < aseq.len() {
                assert(out@[j] == aseq[j]);
            } else {
                assert(out@[j] == bseq[j - aseq.len()]);
            }
        }
        assert(view_errs(out@) =~= view_errs(aseq) + view_errs(bseq));
    }
    out
}

/// Checks the constructors of a class body for parameter properties
/// without a body.
pub fn validate_ctor_props(ms: &Vec<ClassMember>) -> (r: Vec<Error>)
    ensures
        view_errs(r@) == spec_ctor_prop_errors(ms@),
{
    proof {
        assert(ms@.skip(0) =~= ms@);
    }
    validate_ctor_props_from(ms, 0)
}

fn validate_ctor_props_from(ms: &Vec<ClassMember>, i: usize) -> (r: Vec<Error>)
    requires
        i <= ms@.len(),
    ensures
        view_errs(r@) == spec_ctor_prop_errors_from(ms@, i as int),
        view_errs(r@) == spec_ctor_prop_errors(ms@.skip(i as int)),
    decreases ms@.len() - i,
{
    if i == ms.len() {
        let out: Vec<Error> = Vec::new();
        proof {
            assert(ms@.skip(i as int) =~= Seq::<ClassMember>::empty());
            assert(view_errs(out@) =~= Seq::<ErrorV>::empty());
        }
        return out;
    }
    proof {
        assert(ms@.skip(i as int)[0] == ms@[i as int]);
        assert(ms@.skip(i as int).drop_first() =~= ms@.skip(i + 1));
    }
    let rest = validate_ctor_props_from(ms, i + 1);
    match &ms[i] {
        ClassMember::Constructor { params, body: Option::None, .. } => {
            proof {
                assert(params@.skip(0) =~= params@);
            }
            let head = ctor_prop_from(params, 0);
            concat_errors(head, rest)
        },
        _ => {
            proof {
                match ms@[i as int] {
                    ClassMember::Constructor { body, .. } => {
                        assert(body is Some);
                    },
                    _ => {},
                }
            }
            rest
        },
    }
}

pub open spec fn spec_ctor_prop_errors_from(ms: Seq<ClassMember>, i: int) -> Seq<ErrorV> {
    spec_ctor_prop_errors(ms.skip(i))
}

/// Does the statement list contain a `return`, not counting nested
/// function bodies?
pub open spec fn stmts_have_return(stmts: Seq<Stmt>) -> bool
    decreases stmts, 0nat,
{
    exists|i: int| 0 <= i < stmts.len() && stmt_has_return(#[trigger] stmts[i])
}

pub open spec fn stmt_has_return(s: Stmt) -> bool
    decreases s, 1nat,
{
    match s {
        Stmt::Return { .. } => true,
        Stmt::Block { stmts, .. } => stmts_have_return(stmts@),
        Stmt::If { cons, alt, .. } => stmt_has_return(*cons) || (match alt {
            Option::Some(a) => stmt_has_return(*a),
            Option::None => false,
        }),
        _ => false,
    }
}

/// A getter with a body must contain a `return` (§4.5); the errors
/// are reported at the getters' key spans.
pub open spec fn spec_getter_errors(ms: Seq<ClassMember>) -> Seq<ErrorV>
    decreases ms.len(),
{
    if ms.len() == 0 {
        Seq::empty()
    } else {
        (match ms[0] {
            ClassMember::Method {
                key,
                kind: MethodKind::Getter,
                func,
                ..
            } => match func.body {
                Option::Some(stmts) => if !stmts_have_return(stmts@) {
                    seq![ErrorV::GetterWithoutReturn { span: member_key_span(key) }]
                } else {
                    Seq::empty()
                },
                Option::None => Seq::empty(),
            },
            _ => Seq::empty(),
        }) + spec_getter_errors(ms.drop_first())
    }
}

pub open spec fn member_key_span(k: MemberKey) -> Span {
    match k {
        MemberKey::Plain(p) => key_span_of(p@),
        MemberKey::Computed { span, .. } => span,
    }
}

fn stmt_has_return_exec(s: &Stmt) -> (r: bool)
    ensures
        r == stmt_has_return(*s),
    decreases *s, 1nat,
{
    proof {
        reveal_with_fuel(stmt_has_return, 2);
        reveal_with_fuel(stmts_have_return, 2);
    }
    match s {
        Stmt::Return { .. } => true,
        Stmt::Block { stmts, .. } => {
            proof {
                assert(stmts@.skip(0) =~= stmts@);
            }
            stmts_have_return_exec(stmts, 0)
        },
        Stmt::If { cons, alt, .. } => {
            if stmt_has_return_exec(cons) {
                true
            } else {
                match alt {
                    Option::Some(a) => stmt_has_return_exec(a),
                    Option::None => false,
                }
            }
        },
        _ => {
            proof {
                match s {
                    Stmt::ExprStmt { .. } => {},
                    Stmt::VarDeclStmt { .. } => {},
                    Stmt::FnDecl { .. } => {},
                    Stmt::ClassDecl { .. } => {},
                    Stmt::EnumDecl { .. } => {},
                    Stmt::InterfaceDecl { .. } => {},
                    Stmt::TypeAliasDecl { .. } => {},
                    Stmt::Empty { .. } => {},
                    _ => {},
                }
            }
            false
        },
    }
}

fn stmts_have_return_exec(stmts: &Vec<Stmt>, i: usize) -> (r: bool)
    requires
        i <= stmts@.len(),
    ensures
        r == exists|j: int| i <= j < stmts@.len() && stmt_has_return(#[trigger] stmts@[j]),
    decreases stmts@.skip(i as int), 0nat,
{
    if i == stmts.len() {
        return false;
    }
    proof {
        assert(stmts@.skip(i as int)[0] == stmts@[i as int]);
        assert(stmts@.skip(i as int).drop_first() =~= stmts@.skip(i + 1));
    }
    if stmt_has_return_exec(&stmts[i]) {
        true
    } else {
        stmts_have_return_exec(stmts, i + 1)
    }
}

/// Checks the getters of a class body for missing returns.
pub fn validate_getters(ms: &Vec<ClassMember>) -> (r: Vec<Error>)
    ensures
        view_errs(r@) == spec_getter_errors(ms@),
{
    proof {
        assert(ms@.skip(0) =~= ms@);
    }
    validate_getters_from(ms, 0)
}

fn validate_getters_from(ms: &Vec<ClassMember>, i: usize) -> (r: Vec<Error>)
    requires
        i <= ms@.len(),
    ensures
        view_errs(r@) == spec_getter_errors(ms@.skip(i as int)),
    decreases ms@.len() - i,
{
    if i == ms.len() {
        let out: Vec<Error> = Vec::new();
        proof {
            assert(ms@.skip(i as int) =~= Seq::<ClassMember>::empty());
            assert(view_errs(out@) =~= Seq::<ErrorV>::empty());
        }
        return out;
    }
    proof {
        assert(ms@.skip(i as int)[0] == ms@[i as int]);
        assert(ms@.skip(i as int).drop_first() =~= ms@.skip(i + 1));
    }
    let rest = validate_getters_from(ms, i + 1);
    match &ms[i] {
        ClassMember::Method { key, kind: MethodKind::Getter, func, .. } => match &func.body {
            Option::Some(stmts) => {
                proof {
                    assert(stmts@.skip(0) =~= stmts@);
                }
                if !stmts_have_return_exec(stmts, 0) {
                    proof {
                        assert(!stmts_have_return(stmts@));
                    }
                    let ks = match key {
                        MemberKey::Plain(p) => match p {
                            PropKey::Ident { span, .. } => *span,
                            PropKey::StrKey { span, .. } => *span,
                            PropKey::NumKey { span, .. } => *span,
                        },
                        MemberKey::Computed { span, .. } => *span,
                    };
                    let h = Error::GetterWithoutReturn { span: ks };
                    let ghost hv = h@;
                    let ghost restseq = rest@;
                    let mut out = rest;
                    out.insert(0, h);
                    proof {
                        crate::errors::lemma_view_errs(out@);
                        crate::errors::lemma_view_errs(restseq);
                        assert(out@[0] == h);
                        assert(out@.drop_first() =~= restseq);
                        assert(view_errs(out@) =~= seq![hv] + view_errs(restseq));
                    }
                    out
                } else {
                    proof {
                        assert(stmts_have_return(stmts@));
                    }
                    rest
                }
            },
            Option::None => rest,
        },
        _ => {
            proof {
                match ms@[i as int] {
                    ClassMember::Method { kind, .. } => {
                        assert(!(kind is Getter));
                    },
                    _ => {},
                }
            }
            rest
        },
    }
}

} // verus!
