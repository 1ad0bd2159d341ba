//! Rewriting of `Self` references inside type expressions.
//!
//! A type taken from an interface declaration may name the implementing
//! type itself (`Self`, `Self::Out`, ...). When the mock implements
//! several interfaces such a reference is ambiguous, so it is qualified
//! against one interface (`<Self as Tr>::Out`); in code emitted onto the
//! mock type itself (constructor-like static methods) the reference is
//! replaced outright by the mock's concrete path. Both rewrites are one
//! traversal that leaves every other part of the type unchanged.

use vstd::prelude::*;

use crate::ast::{
    bindings_view, clone_opt_lifetime, clone_segs, lemma_bindings_view_index,
    lemma_segs_view_index, lemma_strings_view_index, lemma_tys_view_index, lifetimes_view,
    opt_box_ty_view, seg_view, segs_view, ty_view, tys_view, Lifetime, PathSeg, QualName,
    QualifiedBase, SegArgs, SpecPathSeg, SpecQualName, SpecQualifiedBase, SpecSegArgs, SpecTy,
    SpecTyBinding, SpecTyPath, Ty, TyBinding, TyPath,
};

verus! {

/// What to do with a `Self`-headed path: qualify it against an
/// interface, or substitute a concrete type path for the `Self` head.
#[derive(Debug)]
pub enum RewriteMode {
    Qualify(QualName),
    SetTo(TyPath),
}

pub enum SpecRewriteMode {
    Qualify(SpecQualName),
    SetTo(SpecTyPath),
}

impl View for RewriteMode {
    type V = SpecRewriteMode;

    open spec fn view(&self) -> SpecRewriteMode {
        match self {
            RewriteMode::Qualify(q) => SpecRewriteMode::Qualify(q@),
            RewriteMode::SetTo(p) => SpecRewriteMode::SetTo(p@),
        }
    }
}

/// The segments of a qualified name, as plain path segments.
pub open spec fn spec_qual_segs(q: SpecQualName) -> Seq<SpecPathSeg> {
    q.segments.map_values(|n: Seq<char>| SpecPathSeg { name: n, args: SpecSegArgs::Plain })
}

/// Whether a path type is an unqualified reference headed by `Self`.
pub open spec fn spec_is_self_head(p: SpecTyPath) -> bool {
    &&& p.qself is None
    &&& p.segments.len() > 0
    &&& p.segments[0].name == "Self"@
}

/// The replacement for `Self`-headed path `Self::rest`: either
/// `<Self as Tr>::rest` (the qualifying base keeps the original `Self`
/// segment, and the split position is the length of the interface path)
/// or `Mock::rest`.
pub open spec fn spec_apply_self(head: SpecPathSeg, rest: Seq<SpecPathSeg>, m: SpecRewriteMode) -> SpecTy {
    match m {
        SpecRewriteMode::Qualify(tp) => SpecTy::Path(
            SpecTyPath {
                qself: Option::Some(
                    SpecQualifiedBase {
                        base: Box::new(
                            SpecTy::Path(
                                SpecTyPath {
                                    qself: Option::None,
                                    global: false,
                                    segments: seq![head],
                                },
                            ),
                        ),
                        position: tp.segments.len() as usize,
                    },
                ),
                global: false,
                segments: spec_qual_segs(tp) + rest,
            },
        ),
        SpecRewriteMode::SetTo(mp) => SpecTy::Path(
            SpecTyPath { qself: Option::None, global: false, segments: mp.segments + rest },
        ),
    }
}

/// The rewritten type: every part is kept, except that a path headed by
/// an unqualified `Self` is replaced as the mode says.
pub open spec fn spec_rewrite_ty(t: SpecTy, m: SpecRewriteMode) -> SpecTy
    decreases t,
{
    match t {
        SpecTy::Slice(inner) => SpecTy::Slice(Box::new(spec_rewrite_ty(*inner, m))),
        SpecTy::Array(inner, n) => SpecTy::Array(Box::new(spec_rewrite_ty(*inner, m)), n),
        SpecTy::Ptr(mu, inner) => SpecTy::Ptr(mu, Box::new(spec_rewrite_ty(*inner, m))),
        SpecTy::Ref(lt, mu, inner) => SpecTy::Ref(lt, mu, Box::new(spec_rewrite_ty(*inner, m))),
        SpecTy::BareFn(inputs, output) => SpecTy::BareFn(
            spec_rewrite_tys(inputs, m),
            spec_rewrite_opt(output, m),
        ),
        SpecTy::Tuple(ts) => SpecTy::Tuple(spec_rewrite_tys(ts, m)),
        SpecTy::Path(p) => if spec_is_self_head(p) {
            spec_apply_self(p.segments[0], p.segments.drop_first(), m)
        } else {
            SpecTy::Path(spec_rewrite_path(p, m))
        },
        SpecTy::Infer => SpecTy::Infer,
    }
}

pub open spec fn spec_rewrite_opt(o: Option<Box<SpecTy>>, m: SpecRewriteMode) -> Option<
    Box<SpecTy>,
>
    decreases o,
{
    match o {
        Option::None => Option::None,
        Option::Some(b) => Option::Some(Box::new(spec_rewrite_ty(*b, m))),
    }
}

pub open spec fn spec_rewrite_tys(s: Seq<SpecTy>, m: SpecRewriteMode) -> Seq<SpecTy>
    decreases s,
{
    if s.len() == 0 {
        Seq::empty()
    } else {
        seq![spec_rewrite_ty(s[0], m)] + spec_rewrite_tys(s.drop_first(), m)
    }
}

/// A path that is not `Self`-headed: the qualifying base and the
/// segment names stay; only segment arguments are rewritten inside.
pub open spec fn spec_rewrite_path(p: SpecTyPath, m: SpecRewriteMode) -> SpecTyPath
    decreases p,
{
    SpecTyPath { qself: p.qself, global: p.global, segments: spec_rewrite_segs(p.segments, m) }
}

pub open spec fn spec_rewrite_segs(s: Seq<SpecPathSeg>, m: SpecRewriteMode) -> Seq<SpecPathSeg>
    decreases s,
{
    if s.len() == 0 {
        Seq::empty()
    } else {
        seq![spec_rewrite_seg(s[0], m)] + spec_rewrite_segs(s.drop_first(), m)
    }
}

pub open spec fn spec_rewrite_seg(g: SpecPathSeg, m: SpecRewriteMode) -> SpecPathSeg
    decreases g,
{
    SpecPathSeg {
        name: g.name,
        args: match g.args {
            SpecSegArgs::Plain => SpecSegArgs::Plain,
            SpecSegArgs::Angle { lifetimes, types, bindings } => SpecSegArgs::Angle {
                lifetimes: lifetimes,
                types: spec_rewrite_tys(types, m),
                bindings: spec_rewrite_bindings(bindings, m),
            },
            SpecSegArgs::Paren { inputs, output } => SpecSegArgs::Paren {
                inputs: spec_rewrite_tys(inputs, m),
                output: spec_rewrite_opt(output, m),
            },
        },
    }
}

pub open spec fn spec_rewrite_bindings(s: Seq<SpecTyBinding>, m: SpecRewriteMode) -> Seq<
    SpecTyBinding,
>
    decreases s,
{
    if s.len() == 0 {
        Seq::empty()
    } else {
        seq![
            SpecTyBinding { name: s[0].name, ty: spec_rewrite_ty(s[0].ty, m) },
        ] + spec_rewrite_bindings(s.drop_first(), m)
    }
}

/// Rewriting a type list is rewriting each type, pointwise.
pub proof fn lemma_rewrite_tys_index(s: Seq<SpecTy>, m: SpecRewriteMode)
    ensures
        spec_rewrite_tys(s, m).len() == s.len(),
        forall|i: int| 0 <= i < s.len() ==> spec_rewrite_tys(s, m)[i] == spec_rewrite_ty(s[i], m),
    decreases s,
{
    if s.len() > 0 {
        lemma_rewrite_tys_index(s.drop_first(), m);
    }
}

/// Rewriting a segment list is rewriting each segment, pointwise.
pub proof fn lemma_rewrite_segs_index(s: Seq<SpecPathSeg>, m: SpecRewriteMode)
    ensures
        spec_rewrite_segs(s, m).len() == s.len(),
        forall|i: int| 0 <= i < s.len() ==> spec_rewrite_segs(s, m)[i] == spec_rewrite_seg(
            s[i],
            m,
        ),
    decreases s,
{
    if s.len() > 0 {
        lemma_rewrite_segs_index(s.drop_first(), m);
    }
}

/// Rewriting a binding list is rewriting each binding, pointwise.
pub proof fn lemma_rewrite_bindings_index(s: Seq<SpecTyBinding>, m: SpecRewriteMode)
    ensures
        spec_rewrite_bindings(s, m).len() == s.len(),
        forall|i: int| 0 <= i < s.len() ==> spec_rewrite_bindings(s, m)[i] == (SpecTyBinding {
            name: s[i].name,
            ty: spec_rewrite_ty(s[i].ty, m),
        }),
    decreases s,
{
    if s.len() > 0 {
        lemma_rewrite_bindings_index(s.drop_first(), m);
    }
}

/// Whether this path type is an unqualified `Self`-headed path.
fn is_self_head(p: &TyPath) -> (r: bool)
    ensures
        r == spec_is_self_head(p@),
{
    proof {
        lemma_segs_view_index(p.segments@);
    }
    if !p.qself.is_none() {
        return false;
    }
    if p.segments.len() == 0 {
        return false;
    }
    let self_lit = String::from_str("Self");
    p.segments[0].name == self_lit
}

/// The segments of a qualified name as plain path segments.
fn qual_name_to_segs(q: &QualName) -> (r: Vec<PathSeg>)
    ensures
        segs_view(r@) == spec_qual_segs(q@),
{
    let mut out: Vec<PathSeg> = Vec::new();
    let mut i: usize = 0;
    while i < q.segments.len()
        invariant
            i <= q.segments.len(),
            out@.len() == i,
            forall|j: int| 0 <= j < i ==> seg_view(out@[j]) == (SpecPathSeg {
                name: q.segments@[j]@,
                args: SpecSegArgs::Plain,
            }),
        decreases q.segments@.len() - i,
    {
        out.push(PathSeg { name: q.segments[i].clone(), args: SegArgs::Plain });
        i = i + 1;
    }
    proof {
        lemma_segs_view_index(out@);
        lemma_strings_view_index(q.segments@);
        assert(segs_view(out@) =~= spec_qual_segs(q@));
    }
    out
}

/// The replacement for a `Self`-headed path; `segs` is the whole segment
/// list of that path, its first element being the `Self` segment.
fn apply_self(segs: &Vec<PathSeg>, m: &RewriteMode) -> (r: Ty)
    requires
        segs@.len() > 0,
    ensures
        r@ == spec_apply_self(seg_view(segs@[0]), segs_view(segs@).drop_first(), m@),
{
    proof {
        lemma_segs_view_index(segs@);
    }
    let mut new_segs: Vec<PathSeg> = match m {
        RewriteMode::Qualify(tp) => qual_name_to_segs(tp),
        RewriteMode::SetTo(mp) => clone_segs(&mp.segments),
    };
    let ghost prefix: Seq<SpecPathSeg> = segs_view(new_segs@);
    proof {
        lemma_segs_view_index(new_segs@);
    }
    let mut i: usize = 1;
    while i < segs.len()
        invariant
            1 <= i <= segs.len(),
            new_segs@.len() == prefix.len() + i - 1,
            forall|j: int| 0 <= j < prefix.len() ==> seg_view(new_segs@[j]) == prefix[j],
            forall|j: int|
                prefix.len() <= j < new_segs@.len() ==> seg_view(new_segs@[j]) == seg_view(
                    segs@[j - prefix.len() + 1],
                ),
        decreases segs@.len() - i,
    {
        let c = segs[i].deep_clone();
        new_segs.push(c);
        i = i + 1;
    }
    proof {
        lemma_segs_view_index(new_segs@);
        lemma_segs_view_index(segs@);
        assert(segs_view(new_segs@) =~= prefix + segs_view(segs@).drop_first());
    }
    match m {
        RewriteMode::Qualify(tp) => {
            let head = segs[0].deep_clone();
            let mut head_vec: Vec<PathSeg> = Vec::new();
            head_vec.push(head);
            proof {
                lemma_segs_view_index(head_vec@);
                assert(segs_view(head_vec@) =~= seq![seg_view(segs@[0])]);
                lemma_strings_view_index(tp.segments@);
            }
            let base = Ty::Path(
                TyPath { qself: Option::None, global: false, segments: head_vec },
            );
            proof {
                reveal_with_fuel(crate::ast::ty_view, 2);
                reveal_with_fuel(crate::ast::ty_path_view, 2);
                assert(base@ == SpecTy::Path(
                    SpecTyPath {
                        qself: Option::None,
                        global: false,
                        segments: seq![seg_view(segs@[0])],
                    },
                ));
            }
            let ghost base_view = base@;
            let ghost ns = new_segs@;
            let r = Ty::Path(
                TyPath {
                    qself: Option::Some(
                        QualifiedBase { base: Box::new(base), position: tp.segments.len() },
                    ),
                    global: false,
                    segments: new_segs,
                },
            );
            proof {
                reveal_with_fuel(crate::ast::ty_view, 2);
                reveal_with_fuel(crate::ast::ty_path_view, 2);
                assert(r@ == SpecTy::Path(
                    SpecTyPath {
                        qself: Option::Some(
                            SpecQualifiedBase {
                                base: Box::new(base_view),
                                position: tp.segments@.len() as usize,
                            },
                        ),
                        global: false,
                        segments: segs_view(ns),
                    },
                ));
            }
            r
        },
        RewriteMode::SetTo(_mp) => {
            let r = Ty::Path(TyPath { qself: Option::None, global: false, segments: new_segs });
            proof {
                reveal_with_fuel(crate::ast::ty_view, 2);
                reveal_with_fuel(crate::ast::ty_path_view, 2);
            }
            r
        },
    }
}

/// The rewritten type; see `spec_rewrite_ty`.
pub fn rewrite_ty(t: &Ty, m: &RewriteMode) -> (r: Ty)
    ensures
        r@ == spec_rewrite_ty(t@, m@),
    decreases *t,
{
    match t {
        Ty::Slice(inner) => Ty::Slice(Box::new(rewrite_ty(inner, m))),
        Ty::Array(inner, n) => Ty::Array(Box::new(rewrite_ty(inner, m)), *n),
        Ty::Ptr(mu, inner) => Ty::Ptr(*mu, Box::new(rewrite_ty(inner, m))),
        Ty::Ref(lt, mu, inner) => Ty::Ref(
            clone_opt_lifetime(lt),
            *mu,
            Box::new(rewrite_ty(inner, m)),
        ),
        Ty::BareFn(inputs, output) => Ty::BareFn(
            rewrite_tys(inputs, m),
            rewrite_opt(output, m),
        ),
        Ty::Tuple(ts) => Ty::Tuple(rewrite_tys(ts, m)),
        Ty::Path(p) => {
            if is_self_head(p) {
                proof {
                    lemma_segs_view_index(p.segments@);
                    assert(segs_view(p.segments@).drop_first() =~= segs_view(
                        p.segments@.drop_first(),
                    )) by {
                        lemma_segs_view_index(p.segments@.drop_first());
                    }
                }
                apply_self(&p.segments, m)
            } else {
                Ty::Path(rewrite_path(p, m))
            }
        },
        Ty::Infer => Ty::Infer,
    }
}

fn rewrite_opt(o: &Option<Box<Ty>>, m: &RewriteMode) -> (r: Option<Box<Ty>>)
    ensures
        opt_box_ty_view(r) == spec_rewrite_opt(opt_box_ty_view(*o), m@),
    decreases *o,
{
    match o {
        Option::None => Option::None,
        Option::Some(b) => Option::Some(Box::new(rewrite_ty(b, m))),
    }
}

fn rewrite_tys(v: &Vec<Ty>, m: &RewriteMode) -> (r: Vec<Ty>)
    ensures
        tys_view(r@) == spec_rewrite_tys(tys_view(v@), m@),
    decreases *v,
{
    let mut out: Vec<Ty> = Vec::new();
    let mut i: usize = 0;
    while i < v.len()
        invariant
            i <= v.len(),
            out@.len() == i,
            forall|j: int| 0 <= j < i ==> ty_view(out@[j]) == spec_rewrite_ty(
                ty_view(v@[j]),
                m@,
            ),
        decreases v@.len() - i,
    {
        let c = rewrite_ty(&v[i], m);
        out.push(c);
        i = i + 1;
    }
    proof {
        lemma_tys_view_index(out@);
        lemma_tys_view_index(v@);
        lemma_rewrite_tys_index(tys_view(v@), m@);
        assert(tys_view(out@) =~= spec_rewrite_tys(tys_view(v@), m@));
    }
    out
}

fn rewrite_path(p: &TyPath, m: &RewriteMode) -> (r: TyPath)
    ensures
        r@ == spec_rewrite_path(p@, m@),
    decreases *p,
{
    let qself = match &p.qself {
        Option::None => Option::None,
        Option::Some(q) => Option::Some(
            QualifiedBase { base: Box::new((*q.base).deep_clone()), position: q.position },
        ),
    };
    let segments = rewrite_segs(&p.segments, m);
    TyPath { qself, global: p.global, segments }
}

fn rewrite_segs(v: &Vec<PathSeg>, m: &RewriteMode) -> (r: Vec<PathSeg>)
    ensures
        segs_view(r@) == spec_rewrite_segs(segs_view(v@), m@),
    decreases *v,
{
    let mut out: Vec<PathSeg> = Vec::new();
    let mut i: usize = 0;
    while i < v.len()
        invariant
            i <= v.len(),
            out@.len() == i,
            forall|j: int| 0 <= j < i ==> seg_view(out@[j]) == spec_rewrite_seg(
                seg_view(v@[j]),
                m@,
            ),
        decreases v@.len() - i,
    {
        let c = rewrite_seg(&v[i], m);
        out.push(c);
        i = i + 1;
    }
    proof {
        lemma_segs_view_index(out@);
        lemma_segs_view_index(v@);
        lemma_rewrite_segs_index(segs_view(v@), m@);
        assert(segs_view(out@) =~= spec_rewrite_segs(segs_view(v@), m@));
    }
    out
}

fn rewrite_seg(g: &PathSeg, m: &RewriteMode) -> (r: PathSeg)
    ensures
        r@ == spec_rewrite_seg(g@, m@),
    decreases *g,
{
    let args = match &g.args {
        SegArgs::Plain => SegArgs::Plain,
        SegArgs::Angle { lifetimes, types, bindings } => {
            let mut lts: Vec<Lifetime> = Vec::new();
            let mut i: usize = 0;
            while i < lifetimes.len()
                invariant
                    i <= lifetimes.len(),
                    lts@.len() == i,
                    forall|j: int| 0 <= j < i ==> lts@[j]@ == lifetimes@[j]@,
                decreases lifetimes@.len() - i,
            {
                let c = lifetimes[i].deep_clone();
                lts.push(c);
                i = i + 1;
            }
            proof {
                assert(lifetimes_view(lts@) =~= lifetimes_view(lifetimes@));
            }
            SegArgs::Angle {
                lifetimes: lts,
                types: rewrite_tys(types, m),
                bindings: rewrite_bindings(bindings, m),
            }
        },
        SegArgs::Paren { inputs, output } => SegArgs::Paren {
            inputs: rewrite_tys(inputs, m),
            output: rewrite_opt(output, m),
        },
    };
    PathSeg { name: g.name.clone(), args }
}

fn rewrite_bindings(v: &Vec<TyBinding>, m: &RewriteMode) -> (r: Vec<TyBinding>)
    ensures
        bindings_view(r@) == spec_rewrite_bindings(bindings_view(v@), m@),
    decreases *v,
{
    let mut out: Vec<TyBinding> = Vec::new();
    let mut i: usize = 0;
    while i < v.len()
        invariant
            i <= v.len(),
            out@.len() == i,
            forall|j: int| 0 <= j < i ==> out@[j].name@ == v@[j].name@ && ty_view(out@[j].ty)
                == spec_rewrite_ty(ty_view(v@[j].ty), m@),
        decreases v@.len() - i,
    {
        let c = TyBinding { name: v[i].name.clone(), ty: rewrite_ty(&v[i].ty, m) };
        out.push(c);
        i = i + 1;
    }
    proof {
        lemma_bindings_view_index(out@);
        lemma_bindings_view_index(v@);
        lemma_rewrite_bindings_index(bindings_view(v@), m@);
        assert(bindings_view(out@) =~= spec_rewrite_bindings(bindings_view(v@), m@));
    }
    out
}

/// The type with unqualified `Self` references qualified against the
/// given interface: `Self::Out` becomes `<Self as Tr>::Out`.
pub open spec fn spec_qualify_self(t: SpecTy, trait_path: SpecQualName) -> SpecTy {
    spec_rewrite_ty(t, SpecRewriteMode::Qualify(trait_path))
}

/// The type with `Self` references replaced by a concrete type path:
/// `Self` becomes `AMock<T>` in signatures emitted onto the mock itself.
pub open spec fn spec_set_self(t: SpecTy, mock_path: SpecTyPath) -> SpecTy {
    spec_rewrite_ty(t, SpecRewriteMode::SetTo(mock_path))
}

/// Qualify unqualified `Self` references against an interface.
pub fn qualify_self(t: &Ty, trait_path: &QualName) -> (r: Ty)
    ensures
        r@ == spec_qualify_self(t@, trait_path@),
{
    let m = RewriteMode::Qualify(trait_path.deep_clone());
    rewrite_ty(t, &m)
}

/// Replace `Self` references with a concrete type path.
pub fn set_self(t: &Ty, mock_path: &TyPath) -> (r: Ty)
    ensures
        r@ == spec_set_self(t@, mock_path@),
{
    let m = RewriteMode::SetTo(mock_path.deep_clone());
    rewrite_ty(t, &m)
}

} // verus!
