//! The scope stack: a stack of frames, each holding variable bindings,
//! type bindings, narrowing facts and an optional `this`-type. Lookup
//! walks the stack from the innermost frame outward; facts are
//! consulted before variable bindings.

use vstd::prelude::*;

use crate::ast::VarDeclKind;
use crate::errors::Error;
use crate::ty::{dup_ty, view_ty, KeywordKind, Span, Type, TypeV};

verus! {

#[derive(Clone, Copy, Debug, PartialEq, Eq, Structural)]
pub enum ScopeKind {
    Module,
    Block,
    Fn,
    Class,
}

/// One variable binding.
#[derive(Debug)]
pub struct VarInfo {
    pub kind: VarDeclKind,
    pub ty: Option<Type>,
    pub initialized: bool,
    /// Set on a binding cloned from a parent scope so narrowing does
    /// not bleed outward.
    pub copied: bool,
}

pub ghost struct VarInfoV {
    pub kind: VarDeclKind,
    pub ty: Option<TypeV>,
    pub initialized: bool,
    pub copied: bool,
}

impl View for VarInfo {
    type V = VarInfoV;

    open spec fn view(&self) -> VarInfoV {
        VarInfoV {
            kind: self.kind,
            ty: match self.ty {
                Option::Some(t) => Option::Some(view_ty(t)),
                Option::None => Option::None,
            },
            initialized: self.initialized,
            copied: self.copied,
        }
    }
}

/// One scope frame.
#[derive(Debug)]
pub struct ScopeFrame {
    pub kind: ScopeKind,
    pub vars: Vec<(String, VarInfo)>,
    pub types: Vec<(String, Type)>,
    pub facts: Vec<(String, Type)>,
    pub this_ty: Option<Type>,
}

#[verifier::ext_equal]
pub ghost struct FrameV {
    pub kind: ScopeKind,
    pub vars: Seq<(Seq<char>, VarInfoV)>,
    pub types: Seq<(Seq<char>, TypeV)>,
    pub facts: Seq<(Seq<char>, TypeV)>,
    pub this_ty: Option<TypeV>,
}

pub open spec fn view_var_entries(s: Seq<(String, VarInfo)>) -> Seq<(Seq<char>, VarInfoV)> {
    s.map_values(|e: (String, VarInfo)| (e.0@, e.1@))
}

pub open spec fn view_ty_entries(s: Seq<(String, Type)>) -> Seq<(Seq<char>, TypeV)> {
    s.map_values(|e: (String, Type)| (e.0@, view_ty(e.1)))
}

impl View for ScopeFrame {
    type V = FrameV;

    open spec fn view(&self) -> FrameV {
        FrameV {
            kind: self.kind,
            vars: view_var_entries(self.vars@),
            types: view_ty_entries(self.types@),
            facts: view_ty_entries(self.facts@),
            this_ty: match self.this_ty {
                Option::Some(t) => Option::Some(view_ty(t)),
                Option::None => Option::None,
            },
        }
    }
}

pub open spec fn view_frames(s: Seq<ScopeFrame>) -> Seq<FrameV> {
    s.map_values(|f: ScopeFrame| f@)
}

/// A fresh scope frame of the given kind.
pub fn new_frame(kind: ScopeKind) -> (r: ScopeFrame)
    ensures
        r@ == (FrameV {
            kind,
            vars: Seq::empty(),
            types: Seq::empty(),
            facts: Seq::empty(),
            this_ty: Option::None,
        }),
{
    let r = ScopeFrame {
        kind,
        vars: Vec::new(),
        types: Vec::new(),
        facts: Vec::new(),
        this_ty: Option::None,
    };
    proof {
        assert(view_var_entries(r.vars@) =~= Seq::<(Seq<char>, VarInfoV)>::empty());
        assert(view_ty_entries(r.types@) =~= Seq::<(Seq<char>, TypeV)>::empty());
        assert(view_ty_entries(r.facts@) =~= Seq::<(Seq<char>, TypeV)>::empty());
    }
    r
}

// ------------------------------------------------------------------
// Association lookup, last binding wins.
// ------------------------------------------------------------------

pub open spec fn assoc_var(s: Seq<(Seq<char>, VarInfoV)>, k: Seq<char>) -> Option<VarInfoV>
    decreases s.len(),
{
    if s.len() == 0 {
        Option::None
    } else if s.last().0 == k {
        Option::Some(s.last().1)
    } else {
        assoc_var(s.drop_last(), k)
    }
}

pub open spec fn assoc_ty(s: Seq<(Seq<char>, TypeV)>, k: Seq<char>) -> Option<TypeV>
    decreases s.len(),
{
    if s.len() == 0 {
        Option::None
    } else if s.last().0 == k {
        Option::Some(s.last().1)
    } else {
        assoc_ty(s.drop_last(), k)
    }
}

/// The latest binding of `name` in a variable table, duplicated.
pub fn lookup_var(s: &Vec<(String, VarInfo)>, name: &String) -> (r: Option<VarInfo>)
    ensures
        (r is Some) == (assoc_var(view_var_entries(s@), name@) is Some),
        r matches Option::Some(v) ==> Option::Some(v@) == assoc_var(view_var_entries(s@), name@),
{
    let mut i: usize = s.len();
    proof {
        assert(view_var_entries(s@).take(s@.len() as int) =~= view_var_entries(s@));
    }
    while i > 0
        invariant
            i <= s.len(),
            assoc_var(view_var_entries(s@), name@) == assoc_var(
                view_var_entries(s@).take(i as int),
                name@,
            ),
        decreases i,
    {
        i -= 1;
        let ghost pre = view_var_entries(s@).take(i + 1);
        proof {
            assert(pre.last() == (s@[i as int].0@, s@[i as int].1@));
            assert(pre.drop_last() =~= view_var_entries(s@).take(i as int));
        }
        if s[i].0 == *name {
            let vi = &s[i].1;
            let ty = match &vi.ty {
                Option::Some(t) => Option::Some(dup_ty(t)),
                Option::None => Option::None,
            };
            return Option::Some(
                VarInfo { kind: vi.kind, ty, initialized: vi.initialized, copied: vi.copied },
            );
        }
    }
    proof {
        assert(view_var_entries(s@).take(0) =~= Seq::<(Seq<char>, VarInfoV)>::empty());
    }
    Option::None
}

/// The latest binding of `name` in a type table, duplicated.
pub fn lookup_ty(s: &Vec<(String, Type)>, name: &String) -> (r: Option<Type>)
    ensures
        (r is Some) == (assoc_ty(view_ty_entries(s@), name@) is Some),
        r matches Option::Some(t) ==> Option::Some(t@) == assoc_ty(view_ty_entries(s@), name@),
{
    let mut i: usize = s.len();
    proof {
        assert(view_ty_entries(s@).take(s@.len() as int) =~= view_ty_entries(s@));
    }
    while i > 0
        invariant
            i <= s.len(),
            assoc_ty(view_ty_entries(s@), name@) == assoc_ty(
                view_ty_entries(s@).take(i as int),
                name@,
            ),
        decreases i,
    {
        i -= 1;
        let ghost pre = view_ty_entries(s@).take(i + 1);
        proof {
            assert(pre.last() == (s@[i as int].0@, view_ty(s@[i as int].1)));
            assert(pre.drop_last() =~= view_ty_entries(s@).take(i as int));
        }
        if s[i].0 == *name {
            return Option::Some(dup_ty(&s[i].1));
        }
    }
    proof {
        assert(view_ty_entries(s@).take(0) =~= Seq::<(Seq<char>, TypeV)>::empty());
    }
    Option::None
}

// ------------------------------------------------------------------
// Lookup across the stack, innermost frame first.
// ------------------------------------------------------------------

pub open spec fn find_type_v(frames: Seq<FrameV>, name: Seq<char>) -> Option<TypeV>
    decreases frames.len(),
{
    if frames.len() == 0 {
        Option::None
    } else {
        match assoc_ty(frames.last().types, name) {
            Option::Some(t) => Option::Some(t),
            Option::None => find_type_v(frames.drop_last(), name),
        }
    }
}

pub open spec fn find_fact_v(frames: Seq<FrameV>, name: Seq<char>) -> Option<TypeV>
    decreases frames.len(),
{
    if frames.len() == 0 {
        Option::None
    } else {
        match assoc_ty(frames.last().facts, name) {
            Option::Some(t) => Option::Some(t),
            Option::None => find_fact_v(frames.drop_last(), name),
        }
    }
}

pub open spec fn find_var_v(frames: Seq<FrameV>, name: Seq<char>) -> Option<VarInfoV>
    decreases frames.len(),
{
    if frames.len() == 0 {
        Option::None
    } else {
        match assoc_var(frames.last().vars, name) {
            Option::Some(v) => Option::Some(v),
            Option::None => find_var_v(frames.drop_last(), name),
        }
    }
}

pub open spec fn find_this_v(frames: Seq<FrameV>, dummy: Seq<char>) -> Option<TypeV>
    decreases frames.len(),
{
    if frames.len() == 0 {
        Option::None
    } else {
        match frames.last().this_ty {
            Option::Some(t) => Option::Some(t),
            Option::None => find_this_v(frames.drop_last(), dummy),
        }
    }
}

/// The nearest type binding of `name`, duplicated.
pub fn find_type(frames: &Vec<ScopeFrame>, name: &String) -> (r: Option<Type>)
    ensures
        (r is Some) == (find_type_v(view_frames(frames@), name@) is Some),
        r matches Option::Some(t) ==> Option::Some(t@) == find_type_v(
            view_frames(frames@),
            name@,
        ),
{
    let mut i: usize = frames.len();
    proof {
        assert(view_frames(frames@).take(frames@.len() as int) =~= view_frames(frames@));
    }
    while i > 0
        invariant
            i <= frames.len(),
            find_type_v(view_frames(frames@), name@) == find_type_v(
                view_frames(frames@).take(i as int),
                name@,
            ),
        decreases i,
    {
        i -= 1;
        let ghost pre = view_frames(frames@).take(i + 1);
        proof {
            assert(pre.last() == frames@[i as int]@);
            assert(pre.drop_last() =~= view_frames(frames@).take(i as int));
        }
        match lookup_ty(&frames[i].types, name) {
            Option::Some(t) => {
                return Option::Some(t);
            },
            Option::None => {},
        }
    }
    proof {
        assert(view_frames(frames@).take(0) =~= Seq::<FrameV>::empty());
    }
    Option::None
}

/// The nearest narrowing fact for `name`, duplicated.
pub fn find_fact(frames: &Vec<ScopeFrame>, name: &String) -> (r: Option<Type>)
    ensures
        (r is Some) == (find_fact_v(view_frames(frames@), name@) is Some),
        r matches Option::Some(t) ==> Option::Some(t@) == find_fact_v(
            view_frames(frames@),
            name@,
        ),
{
    let mut i: usize = frames.len();
    proof {
        assert(view_frames(frames@).take(frames@.len() as int) =~= view_frames(frames@));
    }
    while i > 0
        invariant
            i <= frames.len(),
            find_fact_v(view_frames(frames@), name@) == find_fact_v(
                view_frames(frames@).take(i as int),
                name@,
            ),
        decreases i,
    {
        i -= 1;
        let ghost pre = view_frames(frames@).take(i + 1);
        proof {
            assert(pre.last() == frames@[i as int]@);
            assert(pre.drop_last() =~= view_frames(frames@).take(i as int));
        }
        match lookup_ty(&frames[i].facts, name) {
            Option::Some(t) => {
                return Option::Some(t);
            },
            Option::None => {},
        }
    }
    proof {
        assert(view_frames(frames@).take(0) =~= Seq::<FrameV>::empty());
    }
    Option::None
}

/// The nearest variable binding of `name`, duplicated.
pub fn find_var(frames: &Vec<ScopeFrame>, name: &String) -> (r: Option<VarInfo>)
    ensures
        (r is Some) == (find_var_v(view_frames(frames@), name@) is Some),
        r matches Option::Some(v) ==> Option::Some(v@) == find_var_v(view_frames(frames@), name@),
{
    let mut i: usize = frames.len();
    proof {
        assert(view_frames(frames@).take(frames@.len() as int) =~= view_frames(frames@));
    }
    while i > 0
        invariant
            i <= frames.len(),
            find_var_v(view_frames(frames@), name@) == find_var_v(
                view_frames(frames@).take(i as int),
                name@,
            ),
        decreases i,
    {
        i -= 1;
        let ghost pre = view_frames(frames@).take(i + 1);
        proof {
            assert(pre.last() == frames@[i as int]@);
            assert(pre.drop_last() =~= view_frames(frames@).take(i as int));
        }
        match lookup_var(&frames[i].vars, name) {
            Option::Some(v) => {
                return Option::Some(v);
            },
            Option::None => {},
        }
    }
    proof {
        assert(view_frames(frames@).take(0) =~= Seq::<FrameV>::empty());
    }
    Option::None
}

/// The nearest `this`-type, duplicated.
pub fn find_this(frames: &Vec<ScopeFrame>) -> (r: Option<Type>)
    ensures
        (r is Some) == (find_this_v(view_frames(frames@), Seq::empty()) is Some),
        r matches Option::Some(t) ==> Option::Some(t@) == find_this_v(
            view_frames(frames@),
            Seq::empty(),
        ),
{
    let mut i: usize = frames.len();
    proof {
        assert(view_frames(frames@).take(frames@.len() as int) =~= view_frames(frames@));
    }
    while i > 0
        invariant
            i <= frames.len(),
            find_this_v(view_frames(frames@), Seq::empty()) == find_this_v(
                view_frames(frames@).take(i as int),
                Seq::empty(),
            ),
        decreases i,
    {
        i -= 1;
        let ghost pre = view_frames(frames@).take(i + 1);
        proof {
            assert(pre.last() == frames@[i as int]@);
            assert(pre.drop_last() =~= view_frames(frames@).take(i as int));
        }
        match &frames[i].this_ty {
            Option::Some(t) => {
                return Option::Some(dup_ty(t));
            },
            Option::None => {},
        }
    }
    proof {
        assert(view_frames(frames@).take(0) =~= Seq::<FrameV>::empty());
    }
    Option::None
}

// ------------------------------------------------------------------
// Mutation of the innermost frame.
// ------------------------------------------------------------------

/// The stack after a binding of `name` is added to the top frame.
pub open spec fn with_var_v(
    frames: Seq<FrameV>,
    name: Seq<char>,
    vi: VarInfoV,
) -> Seq<FrameV> {
    let f = frames.last();
    frames.update(frames.len() - 1, FrameV { vars: f.vars.push((name, vi)), ..f })
}

/// The stack after a type binding of `name` is added to the top frame.
pub open spec fn with_type_v(frames: Seq<FrameV>, name: Seq<char>, t: TypeV) -> Seq<FrameV> {
    let f = frames.last();
    frames.update(frames.len() - 1, FrameV { types: f.types.push((name, t)), ..f })
}

/// The stack after a narrowing fact for `name` is added to the top
/// frame.
pub open spec fn with_fact_v(frames: Seq<FrameV>, name: Seq<char>, t: TypeV) -> Seq<FrameV> {
    let f = frames.last();
    frames.update(frames.len() - 1, FrameV { facts: f.facts.push((name, t)), ..f })
}

/// Adds a variable binding to the top frame.
pub fn add_var(frames: &mut Vec<ScopeFrame>, name: String, vi: VarInfo)
    requires
        old(frames)@.len() > 0,
    ensures
        view_frames(final(frames)@) == with_var_v(view_frames(old(frames)@), name@, vi@),
{
    let ghost oldv = view_frames(frames@);
    let mut f = match frames.pop() {
        Option::Some(f) => f,
        Option::None => new_frame(ScopeKind::Module),
    };
    let ghost fv = f@;
    f.vars.push((name, vi));
    proof {
        assert(view_var_entries(f.vars@) =~= fv.vars.push((name@, vi@)));
    }
    frames.push(f);
    proof {
        assert(view_frames(frames@) =~= with_var_v(oldv, name@, vi@));
    }
}

/// Adds a type binding to the top frame.
pub fn add_type(frames: &mut Vec<ScopeFrame>, name: String, t: Type)
    requires
        old(frames)@.len() > 0,
    ensures
        view_frames(final(frames)@) == with_type_v(view_frames(old(frames)@), name@, t@),
{
    let ghost oldv = view_frames(frames@);
    let mut f = match frames.pop() {
        Option::Some(f) => f,
        Option::None => new_frame(ScopeKind::Module),
    };
    let ghost fv = f@;
    f.types.push((name, t));
    proof {
        assert(view_ty_entries(f.types@) =~= fv.types.push((name@, view_ty(t))));
    }
    frames.push(f);
    proof {
        assert(view_frames(frames@) =~= with_type_v(oldv, name@, view_ty(t)));
    }
}

/// Adds a narrowing fact to the top frame.
pub fn add_fact(frames: &mut Vec<ScopeFrame>, name: String, t: Type)
    requires
        old(frames)@.len() > 0,
    ensures
        view_frames(final(frames)@) == with_fact_v(view_frames(old(frames)@), name@, t@),
{
    let ghost oldv = view_frames(frames@);
    let mut f = match frames.pop() {
        Option::Some(f) => f,
        Option::None => new_frame(ScopeKind::Module),
    };
    let ghost fv = f@;
    f.facts.push((name, t));
    proof {
        assert(view_ty_entries(f.facts@) =~= fv.facts.push((name@, view_ty(t))));
    }
    frames.push(f);
    proof {
        assert(view_frames(frames@) =~= with_fact_v(oldv, name@, view_ty(t)));
    }
}

/// The stack after the top frame's `this`-type is set.
pub open spec fn with_this_v(frames: Seq<FrameV>, t: Option<TypeV>) -> Seq<FrameV> {
    let f = frames.last();
    frames.update(frames.len() - 1, FrameV { this_ty: t, ..f })
}

/// Sets the top frame's `this`-type.
pub fn set_this(frames: &mut Vec<ScopeFrame>, t: Option<Type>)
    requires
        old(frames)@.len() > 0,
    ensures
        view_frames(final(frames)@) == with_this_v(
            view_frames(old(frames)@),
            match t {
                Option::Some(ty) => Option::Some(view_ty(ty)),
                Option::None => Option::None,
            },
        ),
{
    let ghost oldv = view_frames(frames@);
    let ghost tv = (match &t {
        Option::Some(ty) => Option::Some(view_ty(*ty)),
        Option::None => Option::None,
    });
    let mut f = match frames.pop() {
        Option::Some(f) => f,
        Option::None => new_frame(ScopeKind::Module),
    };
    f.this_ty = t;
    frames.push(f);
    proof {
        assert(view_frames(frames@) =~= with_this_v(oldv, tv));
    }
}

/// Pushes a fresh scope frame.
pub fn push_scope(frames: &mut Vec<ScopeFrame>, kind: ScopeKind)
    ensures
        view_frames(final(frames)@) == view_frames(old(frames)@).push(
            FrameV {
                kind,
                vars: Seq::empty(),
                types: Seq::empty(),
                facts: Seq::empty(),
                this_ty: Option::None,
            },
        ),
{
    let ghost oldv = view_frames(frames@);
    let f = new_frame(kind);
    let ghost fv = f@;
    frames.push(f);
    proof {
        assert(view_frames(frames@) =~= oldv.push(fv));
    }
}

/// Pops the innermost scope frame, discarding its bindings and facts.
pub fn pop_scope(frames: &mut Vec<ScopeFrame>)
    requires
        old(frames)@.len() > 0,
    ensures
        view_frames(final(frames)@) == view_frames(old(frames)@).drop_last(),
{
    let ghost oldv = view_frames(frames@);
    let _ = frames.pop();
    proof {
        assert(view_frames(frames@) =~= oldv.drop_last());
    }
}

/// The read-only context expression typing consults: the scope stack,
/// the resolved imports, and the ambient type library.
#[derive(Debug)]
pub struct Cx {
    pub scopes: Vec<ScopeFrame>,
    pub imports: Vec<(String, Type)>,
    pub libs: Vec<(String, Type)>,
}

#[verifier::ext_equal]
pub ghost struct CxV {
    pub scopes: Seq<FrameV>,
    pub imports: Seq<(Seq<char>, TypeV)>,
    pub libs: Seq<(Seq<char>, TypeV)>,
}

impl View for Cx {
    type V = CxV;

    open spec fn view(&self) -> CxV {
        CxV {
            scopes: view_frames(self.scopes@),
            imports: view_ty_entries(self.imports@),
            libs: view_ty_entries(self.libs@),
        }
    }
}

} // verus!
