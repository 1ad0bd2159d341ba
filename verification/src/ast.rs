//! Structural model of the supported interface-declaration surface.
//!
//! An interface is a trait-like contract: a qualified name, supertrait
//! bounds, and members (methods and associated types). Type expressions
//! cover the forms the generator's rewriting pass walks through: slices,
//! arrays, raw and borrowed references, function-pointer types, tuples
//! and path types. Everything is held as plain values so the generation
//! logic over it can be specified and verified.

use vstd::prelude::*;

verus! {

/// A plain qualified name: `::a::b::C` or `a::b::C`. Used for registry
/// keys, module paths and base-interface references, where path segments
/// carry no type arguments.
#[derive(Debug, Clone, PartialEq, Eq)]
pub struct QualName {
    pub global: bool,
    pub segments: Vec<String>,
}

/// Mathematical image of a `QualName`.
pub struct SpecQualName {
    pub global: bool,
    pub segments: Seq<Seq<char>>,
}

pub open spec fn strings_view(s: Seq<String>) -> Seq<Seq<char>> {
    s.map_values(|x: String| x@)
}

/// The views of a string list are the list of views, pointwise.
pub broadcast proof fn lemma_strings_view_index(s: Seq<String>)
    ensures
        (#[trigger] strings_view(s)).len() == s.len(),
        forall|i: int| 0 <= i < s.len() ==> strings_view(s)[i] == s[i]@,
{
}

impl View for QualName {
    type V = SpecQualName;

    open spec fn view(&self) -> SpecQualName {
        SpecQualName { global: self.global, segments: strings_view(self.segments@) }
    }
}

pub open spec fn qual_names_view(s: Seq<QualName>) -> Seq<SpecQualName> {
    s.map_values(|x: QualName| x@)
}

/// The views of a name list are the list of views, pointwise.
pub broadcast proof fn lemma_qual_names_view_index(s: Seq<QualName>)
    ensures
        (#[trigger] qual_names_view(s)).len() == s.len(),
        forall|i: int| 0 <= i < s.len() ==> qual_names_view(s)[i] == s[i]@,
{
}

/// A lifetime as it appears on a reference type: either one written in
/// the declaration, or one the generator makes up for an
/// expectation-builder signature (numbered, so distinct indices are
/// distinct lifetimes).
#[derive(Debug, Clone, PartialEq, Eq)]
pub enum Lifetime {
    Named(String),
    Fresh(usize),
}

pub enum SpecLifetime {
    Named(Seq<char>),
    Fresh(usize),
}

impl View for Lifetime {
    type V = SpecLifetime;

    open spec fn view(&self) -> SpecLifetime {
        match self {
            Lifetime::Named(n) => SpecLifetime::Named(n@),
            Lifetime::Fresh(i) => SpecLifetime::Fresh(*i),
        }
    }
}

/// One segment of a path type, with its type arguments if any.
#[derive(Debug, PartialEq, Eq)]
pub struct PathSeg {
    pub name: String,
    pub args: SegArgs,
}

/// Arguments of a path segment: none, angle-bracketed
/// (`Tr<'x, T, Item = U>`), or parenthesized (`Fn(T) -> U`).
#[derive(Debug, PartialEq, Eq)]
pub enum SegArgs {
    Plain,
    Angle { lifetimes: Vec<Lifetime>, types: Vec<Ty>, bindings: Vec<TyBinding> },
    Paren { inputs: Vec<Ty>, output: Option<Box<Ty>> },
}

/// An associated-type binding inside angle brackets, `Item = U`.
#[derive(Debug, PartialEq, Eq)]
pub struct TyBinding {
    pub name: String,
    pub ty: Ty,
}

/// A path type, possibly qualified: `<T as Tr>::Out` carries a
/// qualifying base and the position splitting trait path from the rest.
#[derive(Debug, PartialEq, Eq)]
pub struct TyPath {
    pub qself: Option<QualifiedBase>,
    pub global: bool,
    pub segments: Vec<PathSeg>,
}

#[derive(Debug, PartialEq, Eq)]
pub struct QualifiedBase {
    pub base: Box<Ty>,
    pub position: usize,
}

/// A type expression, restricted to the forms the rewriting pass
/// traverses.
#[derive(Debug, PartialEq, Eq)]
pub enum Ty {
    /// `[T]`
    Slice(Box<Ty>),
    /// `[T; n]`
    Array(Box<Ty>, u64),
    /// `*const T` / `*mut T` (the flag is mutability)
    Ptr(bool, Box<Ty>),
    /// `&'a T` / `&'a mut T`
    Ref(Option<Lifetime>, bool, Box<Ty>),
    /// `fn(T, U) -> V`; an absent output is an omitted `-> ...`
    BareFn(Vec<Ty>, Option<Box<Ty>>),
    /// `(T, U)`; the empty tuple is the unit type
    Tuple(Vec<Ty>),
    /// `a::b::C<...>`, possibly `<T as Tr>::C`
    Path(TyPath),
    /// `_`
    Infer,
}

pub struct SpecPathSeg {
    pub name: Seq<char>,
    pub args: SpecSegArgs,
}

pub enum SpecSegArgs {
    Plain,
    Angle { lifetimes: Seq<SpecLifetime>, types: Seq<SpecTy>, bindings: Seq<SpecTyBinding> },
    Paren { inputs: Seq<SpecTy>, output: Option<Box<SpecTy>> },
}

pub struct SpecTyBinding {
    pub name: Seq<char>,
    pub ty: SpecTy,
}

pub struct SpecTyPath {
    pub qself: Option<SpecQualifiedBase>,
    pub global: bool,
    pub segments: Seq<SpecPathSeg>,
}

pub struct SpecQualifiedBase {
    pub base: Box<SpecTy>,
    pub position: usize,
}

pub enum SpecTy {
    Slice(Box<SpecTy>),
    Array(Box<SpecTy>, u64),
    Ptr(bool, Box<SpecTy>),
    Ref(Option<SpecLifetime>, bool, Box<SpecTy>),
    BareFn(Seq<SpecTy>, Option<Box<SpecTy>>),
    Tuple(Seq<SpecTy>),
    Path(SpecTyPath),
    Infer,
}

pub open spec fn lifetimes_view(s: Seq<Lifetime>) -> Seq<SpecLifetime> {
    s.map_values(|x: Lifetime| x@)
}

pub open spec fn opt_lifetime_view(o: Option<Lifetime>) -> Option<SpecLifetime> {
    match o {
        Option::None => Option::None,
        Option::Some(l) => Option::Some(l@),
    }
}

pub open spec fn ty_view(t: Ty) -> SpecTy
    decreases t,
{
    match t {
        Ty::Slice(inner) => SpecTy::Slice(Box::new(ty_view(*inner))),
        Ty::Array(inner, n) => SpecTy::Array(Box::new(ty_view(*inner)), n),
        Ty::Ptr(m, inner) => SpecTy::Ptr(m, Box::new(ty_view(*inner))),
        Ty::Ref(lt, m, inner) => SpecTy::Ref(opt_lifetime_view(lt), m, Box::new(ty_view(*inner))),
        Ty::BareFn(inputs, output) => SpecTy::BareFn(
            tys_view(inputs@),
            opt_box_ty_view(output),
        ),
        Ty::Tuple(ts) => SpecTy::Tuple(tys_view(ts@)),
        Ty::Path(p) => SpecTy::Path(ty_path_view(p)),
        Ty::Infer => SpecTy::Infer,
    }
}

pub open spec fn opt_box_ty_view(o: Option<Box<Ty>>) -> Option<Box<SpecTy>>
    decreases o,
{
    match o {
        Option::None => Option::None,
        Option::Some(b) => Option::Some(Box::new(ty_view(*b))),
    }
}

pub open spec fn tys_view(s: Seq<Ty>) -> Seq<SpecTy>
    decreases s,
{
    if s.len() == 0 {
        Seq::empty()
    } else {
        seq![ty_view(s[0])] + tys_view(s.drop_first())
    }
}

pub open spec fn ty_path_view(p: TyPath) -> SpecTyPath
    decreases p,
{
    SpecTyPath {
        qself: match p.qself {
            Option::None => Option::None,
            Option::Some(q) => Option::Some(
                SpecQualifiedBase { base: Box::new(ty_view(*q.base)), position: q.position },
            ),
        },
        global: p.global,
        segments: segs_view(p.segments@),
    }
}

pub open spec fn segs_view(s: Seq<PathSeg>) -> Seq<SpecPathSeg>
    decreases s,
{
    if s.len() == 0 {
        Seq::empty()
    } else {
        seq![seg_view(s[0])] + segs_view(s.drop_first())
    }
}

pub open spec fn seg_view(g: PathSeg) -> SpecPathSeg
    decreases g,
{
    SpecPathSeg { name: g.name@, args: seg_args_view(g.args) }
}

pub open spec fn seg_args_view(a: SegArgs) -> SpecSegArgs
    decreases a,
{
    match a {
        SegArgs::Plain => SpecSegArgs::Plain,
        SegArgs::Angle { lifetimes, types, bindings } => SpecSegArgs::Angle {
            lifetimes: lifetimes_view(lifetimes@),
            types: tys_view(types@),
            bindings: bindings_view(bindings@),
        },
        SegArgs::Paren { inputs, output } => SpecSegArgs::Paren {
            inputs: tys_view(inputs@),
            output: opt_box_ty_view(output),
        },
    }
}

pub open spec fn bindings_view(s: Seq<TyBinding>) -> Seq<SpecTyBinding>
    decreases s,
{
    if s.len() == 0 {
        Seq::empty()
    } else {
        seq![SpecTyBinding { name: s[0].name@, ty: ty_view(s[0].ty) }] + bindings_view(
            s.drop_first(),
        )
    }
}

impl View for Ty {
    type V = SpecTy;

    open spec fn view(&self) -> SpecTy {
        ty_view(*self)
    }
}

impl View for TyPath {
    type V = SpecTyPath;

    open spec fn view(&self) -> SpecTyPath {
        ty_path_view(*self)
    }
}

impl View for PathSeg {
    type V = SpecPathSeg;

    open spec fn view(&self) -> SpecPathSeg {
        seg_view(*self)
    }
}

/// The views of a type list are the list of views, pointwise.
pub proof fn lemma_tys_view_index(s: Seq<Ty>)
    ensures
        tys_view(s).len() == s.len(),
        forall|i: int| 0 <= i < s.len() ==> tys_view(s)[i] == ty_view(s[i]),
    decreases s,
{
    if s.len() > 0 {
        lemma_tys_view_index(s.drop_first());
    }
}

/// The views of a segment list are the list of views, pointwise.
pub proof fn lemma_segs_view_index(s: Seq<PathSeg>)
    ensures
        segs_view(s).len() == s.len(),
        forall|i: int| 0 <= i < s.len() ==> segs_view(s)[i] == seg_view(s[i]),
    decreases s,
{
    if s.len() > 0 {
        lemma_segs_view_index(s.drop_first());
    }
}

/// The views of a binding list are the list of views, pointwise.
pub proof fn lemma_bindings_view_index(s: Seq<TyBinding>)
    ensures
        bindings_view(s).len() == s.len(),
        forall|i: int| 0 <= i < s.len() ==> bindings_view(s)[i] == (SpecTyBinding {
            name: s[i].name@,
            ty: ty_view(s[i].ty),
        }),
    decreases s,
{
    if s.len() > 0 {
        lemma_bindings_view_index(s.drop_first());
    }
}

impl Lifetime {
    pub fn deep_clone(&self) -> (r: Lifetime)
        ensures
            r@ == self@,
    {
        match self {
            Lifetime::Named(n) => Lifetime::Named(n.clone()),
            Lifetime::Fresh(i) => Lifetime::Fresh(*i),
        }
    }
}

pub fn clone_opt_lifetime(o: &Option<Lifetime>) -> (r: Option<Lifetime>)
    ensures
        opt_lifetime_view(r) == opt_lifetime_view(*o),
{
    match o {
        Option::None => Option::None,
        Option::Some(l) => Option::Some(l.deep_clone()),
    }
}

impl Ty {
    pub fn deep_clone(&self) -> (r: Ty)
        ensures
            r@ == self@,
        decreases *self,
    {
        match self {
            Ty::Slice(inner) => Ty::Slice(Box::new((**inner).deep_clone())),
            Ty::Array(inner, n) => Ty::Array(Box::new((**inner).deep_clone()), *n),
            Ty::Ptr(m, inner) => Ty::Ptr(*m, Box::new((**inner).deep_clone())),
            Ty::Ref(lt, m, inner) => Ty::Ref(
                clone_opt_lifetime(lt),
                *m,
                Box::new((**inner).deep_clone()),
            ),
            Ty::BareFn(inputs, output) => Ty::BareFn(clone_tys(inputs), clone_opt_box_ty(output)),
            Ty::Tuple(ts) => Ty::Tuple(clone_tys(ts)),
            Ty::Path(p) => Ty::Path(p.deep_clone()),
            Ty::Infer => Ty::Infer,
        }
    }
}

pub fn clone_tys(v: &Vec<Ty>) -> (r: Vec<Ty>)
    ensures
        tys_view(r@) == tys_view(v@),
    decreases *v,
{
    let mut out: Vec<Ty> = Vec::new();
    let mut i: usize = 0;
    while i < v.len()
        invariant
            i <= v.len(),
            out@.len() == i,
            forall|j: int| 0 <= j < i ==> ty_view(out@[j]) == ty_view(v@[j]),
        decreases v@.len() - i,
    {
        let c = v[i].deep_clone();
        out.push(c);
        i = i + 1;
    }
    proof {
        lemma_tys_view_index(out@);
        lemma_tys_view_index(v@);
        assert(tys_view(out@) =~= tys_view(v@));
    }
    out
}

pub fn clone_opt_box_ty(o: &Option<Box<Ty>>) -> (r: Option<Box<Ty>>)
    ensures
        opt_box_ty_view(r) == opt_box_ty_view(*o),
    decreases *o,
{
    match o {
        Option::None => Option::None,
        Option::Some(b) => Option::Some(Box::new((**b).deep_clone())),
    }
}

impl TyPath {
    pub fn deep_clone(&self) -> (r: TyPath)
        ensures
            r@ == self@,
        decreases *self,
    {
        let qself = match &self.qself {
            Option::None => Option::None,
            Option::Some(q) => Option::Some(
                QualifiedBase { base: Box::new((*q.base).deep_clone()), position: q.position },
            ),
        };
        TyPath { qself, global: self.global, segments: clone_segs(&self.segments) }
    }
}

pub fn clone_segs(v: &Vec<PathSeg>) -> (r: Vec<PathSeg>)
    ensures
        segs_view(r@) == segs_view(v@),
    decreases *v,
{
    let mut out: Vec<PathSeg> = Vec::new();
    let mut i: usize = 0;
    while i < v.len()
        invariant
            i <= v.len(),
            out@.len() == i,
            forall|j: int| 0 <= j < i ==> seg_view(out@[j]) == seg_view(v@[j]),
        decreases v@.len() - i,
    {
        let c = v[i].deep_clone();
        out.push(c);
        i = i + 1;
    }
    proof {
        lemma_segs_view_index(out@);
        lemma_segs_view_index(v@);
        assert(segs_view(out@) =~= segs_view(v@));
    }
    out
}

impl PathSeg {
    pub fn deep_clone(&self) -> (r: PathSeg)
        ensures
            r@ == self@,
        decreases *self,
    {
        PathSeg { name: self.name.clone(), args: clone_seg_args(&self.args) }
    }
}

pub fn clone_seg_args(a: &SegArgs) -> (r: SegArgs)
    ensures
        seg_args_view(r) == seg_args_view(*a),
    decreases *a,
{
    match a {
        SegArgs::Plain => SegArgs::Plain,
        SegArgs::Angle { lifetimes, types, bindings } => {
            let mut lts: Vec<Lifetime> = Vec::new();
            let mut i: usize = 0;
            while i < lifetimes.len()
                invariant
                    i <= lifetimes.len(),
                    lts@.len() == i,
                    forall|j: int| 0 <= j < i ==> lts@[j]@ == lifetimes@[j]@,
                decreases lifetimes@.len() - i,
            {
                let c = lifetimes[i].deep_clone();
                lts.push(c);
                i = i + 1;
            }
            proof {
                assert(lifetimes_view(lts@) =~= lifetimes_view(lifetimes@));
            }
            SegArgs::Angle {
                lifetimes: lts,
                types: clone_tys(types),
                bindings: clone_bindings(bindings),
            }
        },
        SegArgs::Paren { inputs, output } => SegArgs::Paren {
            inputs: clone_tys(inputs),
            output: clone_opt_box_ty(output),
        },
    }
}

pub fn clone_bindings(v: &Vec<TyBinding>) -> (r: Vec<TyBinding>)
    ensures
        bindings_view(r@) == bindings_view(v@),
    decreases *v,
{
    let mut out: Vec<TyBinding> = Vec::new();
    let mut i: usize = 0;
    while i < v.len()
        invariant
            i <= v.len(),
            out@.len() == i,
            forall|j: int| 0 <= j < i ==> out@[j].name@ == v@[j].name@ && ty_view(out@[j].ty)
                == ty_view(v@[j].ty),
        decreases v@.len() - i,
    {
        let c = TyBinding { name: v[i].name.clone(), ty: v[i].ty.deep_clone() };
        out.push(c);
        i = i + 1;
    }
    proof {
        lemma_bindings_view_index(out@);
        lemma_bindings_view_index(v@);
        assert(bindings_view(out@) =~= bindings_view(v@));
    }
    out
}

pub fn clone_strings(v: &Vec<String>) -> (r: Vec<String>)
    ensures
        strings_view(r@) == strings_view(v@),
{
    let mut out: Vec<String> = Vec::new();
    let mut i: usize = 0;
    while i < v.len()
        invariant
            i <= v.len(),
            out@.len() == i,
            forall|j: int| 0 <= j < i ==> out@[j]@ == v@[j]@,
        decreases v@.len() - i,
    {
        let c = v[i].clone();
        out.push(c);
        i = i + 1;
    }
    proof {
        assert(strings_view(out@) =~= strings_view(v@));
    }
    out
}

impl QualName {
    pub fn deep_clone(&self) -> (r: QualName)
        ensures
            r@ == self@,
    {
        QualName { global: self.global, segments: clone_strings(&self.segments) }
    }

    /// Whether two qualified names are the same name: same globality and
    /// the same segment spelling.
    pub fn eq_name(&self, other: &QualName) -> (r: bool)
        ensures
            r == (self@ == other@),
    {
        proof {
            lemma_strings_view_index(self.segments@);
            lemma_strings_view_index(other.segments@);
        }
        if self.global != other.global {
            return false;
        }
        if self.segments.len() != other.segments.len() {
            return false;
        }
        let mut i: usize = 0;
        while i < self.segments.len()
            invariant
                i <= self.segments.len(),
                self.segments@.len() == other.segments@.len(),
                self.global == other.global,
                forall|j: int| 0 <= j < i ==> self.segments@[j]@ == other.segments@[j]@,
            decreases self.segments@.len() - i,
        {
            if !(self.segments[i] == other.segments[i]) {
                proof {
                    assert(strings_view(self.segments@)[i as int] != strings_view(
                        other.segments@,
                    )[i as int]);
                }
                return false;
            }
            i = i + 1;
        }
        proof {
            assert(strings_view(self.segments@) =~= strings_view(other.segments@));
        }
        true
    }
}

} // verus!
