//! The interface descriptor resolver.
//!
//! A generation request is an ordered list of interface declarations,
//! bases first and the primary interface last. The resolver validates
//! every declaration against the supported subset, checks that each
//! base-interface reference names an interface supplied earlier in the
//! list, gathers the associated-type names, and assigns each interface
//! a fresh id. Validation is complete before any id is handed out, so a
//! rejected request consumes no ids.

use vstd::prelude::*;

use crate::ast::{
    lemma_qual_names_view_index, lemma_strings_view_index, qual_names_view, strings_view,
    QualName, SpecQualName,
};
use crate::decl::{
    bounds_view, clone_members, lemma_bounds_view_index, lemma_members_view_index,
    lemma_requests_view_index, members_view, requests_view, GenError, SpecTraitBound,
    SpecTraitDecl, SpecTraitMember, SpecTraitRequest, TraitBound, TraitMember, TraitRequest,
    UnsupportedKind, BaseIssue,
};
use crate::IdCounter;

verus! {

/// The fully-qualified path of a requested interface: its module path
/// with its own name appended.
pub open spec fn spec_trait_path_of(req: SpecTraitRequest) -> SpecQualName {
    SpecQualName {
        global: req.mod_path.global,
        segments: req.mod_path.segments.push(req.decl.name),
    }
}

/// The problem with one supertrait bound, if any: a non-default
/// modifier, higher-ranked lifetimes, a lifetime bound, or a base that
/// was not supplied earlier in the request.
pub open spec fn spec_bound_issue(b: SpecTraitBound, seen: Seq<SpecQualName>) -> Option<GenError> {
    match b {
        SpecTraitBound::TraitRef { path, modifier_default, has_lifetimes } => {
            if !modifier_default {
                Option::Some(GenError::Unsupported(UnsupportedKind::BoundModifier))
            } else if has_lifetimes {
                Option::Some(GenError::Unsupported(UnsupportedKind::BoundLifetimes))
            } else if !seen.contains(path) {
                Option::Some(GenError::UnresolvedBase(BaseIssue::NotInRequest))
            } else {
                Option::None
            }
        },
        SpecTraitBound::Lifetime => Option::Some(
            GenError::Unsupported(UnsupportedKind::LifetimeBound),
        ),
    }
}

/// The first bound problem, in declaration order.
pub open spec fn spec_first_bound_issue(bs: Seq<SpecTraitBound>, seen: Seq<SpecQualName>) -> Option<
    GenError,
>
    decreases bs,
{
    if bs.len() == 0 {
        Option::None
    } else {
        match spec_bound_issue(bs[0], seen) {
            Option::Some(e) => Option::Some(e),
            Option::None => spec_first_bound_issue(bs.drop_first(), seen),
        }
    }
}

/// The problem with one declaration's own shape, if any: an unsafe
/// trait, any parametrization, or a bound problem.
pub open spec fn spec_trait_issue(d: SpecTraitDecl, seen: Seq<SpecQualName>) -> Option<GenError> {
    if d.is_unsafe {
        Option::Some(GenError::Unsupported(UnsupportedKind::UnsafeTrait))
    } else if d.lifetime_params.len() > 0 || d.ty_params.len() > 0 || d.has_where_clause {
        Option::Some(GenError::Unsupported(UnsupportedKind::ParametrizedTrait))
    } else {
        spec_first_bound_issue(d.bounds, seen)
    }
}

/// Validation of the request list in order. Each accepted interface's
/// path becomes visible to the bounds of the interfaces after it; the
/// result is the list of accepted paths.
pub open spec fn spec_validate(reqs: Seq<SpecTraitRequest>, seen: Seq<SpecQualName>) -> Result<
    Seq<SpecQualName>,
    GenError,
>
    decreases reqs,
{
    if reqs.len() == 0 {
        Result::Ok(seen)
    } else {
        match spec_trait_issue(reqs[0].decl, seen) {
            Option::Some(e) => Result::Err(e),
            Option::None => spec_validate(
                reqs.drop_first(),
                seen.push(spec_trait_path_of(reqs[0])),
            ),
        }
    }
}

/// Whether any interface of the request declares an associated type
/// with bounds (unsupported).
pub open spec fn spec_has_bounded_assoc(reqs: Seq<SpecTraitRequest>) -> bool {
    exists|i: int, j: int|
        0 <= i < reqs.len() && 0 <= j < reqs[i].decl.members.len()
            && ((#[trigger] reqs[i].decl.members[j]) matches SpecTraitMember::AssocType {
            has_bounds: true,
            ..
        })
}

/// The associated-type names of one member list, in order.
pub open spec fn spec_assoc_names_members(ms: Seq<SpecTraitMember>) -> Seq<Seq<char>>
    decreases ms,
{
    if ms.len() == 0 {
        Seq::empty()
    } else {
        (match ms[0] {
            SpecTraitMember::AssocType { name, .. } => seq![name],
            _ => Seq::empty(),
        }) + spec_assoc_names_members(ms.drop_first())
    }
}

/// Appending one member appends its associated-type name, if any.
pub proof fn lemma_assoc_names_members_snoc(s: Seq<SpecTraitMember>, x: SpecTraitMember)
    ensures
        spec_assoc_names_members(s.push(x)) == spec_assoc_names_members(s) + (match x {
            SpecTraitMember::AssocType { name, .. } => seq![name],
            _ => Seq::<Seq<char>>::empty(),
        }),
    decreases s,
{
    let tail: Seq<Seq<char>> = match x {
        SpecTraitMember::AssocType { name, .. } => seq![name],
        _ => Seq::empty(),
    };
    if s.len() == 0 {
        reveal_with_fuel(spec_assoc_names_members, 2);
        assert(s.push(x)[0] == x);
        assert(s.push(x).drop_first() =~= Seq::<SpecTraitMember>::empty());
        assert(spec_assoc_names_members(s.push(x)) =~= spec_assoc_names_members(s) + tail);
    } else {
        assert(s.push(x)[0] == s[0]);
        assert(s.push(x).drop_first() =~= s.drop_first().push(x));
        lemma_assoc_names_members_snoc(s.drop_first(), x);
        assert(spec_assoc_names_members(s.push(x)) =~= spec_assoc_names_members(s) + tail);
    }
}

/// The associated-type names gathered across the whole request, in
/// interface order.
pub open spec fn spec_assoc_names(reqs: Seq<SpecTraitRequest>) -> Seq<Seq<char>>
    decreases reqs,
{
    if reqs.len() == 0 {
        Seq::empty()
    } else {
        spec_assoc_names_members(reqs[0].decl.members) + spec_assoc_names(reqs.drop_first())
    }
}

/// Appending one interface appends its associated-type names.
pub proof fn lemma_assoc_names_snoc(s: Seq<SpecTraitRequest>, x: SpecTraitRequest)
    ensures
        spec_assoc_names(s.push(x)) == spec_assoc_names(s) + spec_assoc_names_members(
            x.decl.members,
        ),
    decreases s,
{
    if s.len() == 0 {
        reveal_with_fuel(spec_assoc_names, 2);
        assert(s.push(x)[0] == x);
        assert(s.push(x).drop_first() =~= Seq::<SpecTraitRequest>::empty());
        assert(spec_assoc_names(s.push(x)) =~= spec_assoc_names(s) + spec_assoc_names_members(
            x.decl.members,
        ));
    } else {
        assert(s.push(x)[0] == s[0]);
        assert(s.push(x).drop_first() =~= s.drop_first().push(x));
        lemma_assoc_names_snoc(s.drop_first(), x);
        assert(spec_assoc_names(s.push(x)) =~= spec_assoc_names(s) + spec_assoc_names_members(
            x.decl.members,
        ));
    }
}

/// The problem with one member, if any: method modifiers outside the
/// subset, bounded associated types, trait-level constants or macros.
pub open spec fn spec_member_issue(m: SpecTraitMember) -> Option<GenError> {
    match m {
        SpecTraitMember::Method(sig) => {
            if sig.is_unsafe {
                Option::Some(GenError::Unsupported(UnsupportedKind::UnsafeMethod))
            } else if sig.is_const {
                Option::Some(GenError::Unsupported(UnsupportedKind::ConstMethod))
            } else if sig.has_abi {
                Option::Some(GenError::Unsupported(UnsupportedKind::NonRustAbi))
            } else {
                Option::None
            }
        },
        SpecTraitMember::AssocType { has_bounds, .. } => {
            if has_bounds {
                Option::Some(GenError::Unsupported(UnsupportedKind::AssocTypeBounds))
            } else {
                Option::None
            }
        },
        SpecTraitMember::ConstItem => Option::Some(
            GenError::Unsupported(UnsupportedKind::TraitConst),
        ),
        SpecTraitMember::MacroItem => Option::Some(
            GenError::Unsupported(UnsupportedKind::TraitMacro),
        ),
    }
}

/// The first member problem of one member list, in order.
pub open spec fn spec_first_member_issue(ms: Seq<SpecTraitMember>) -> Option<GenError>
    decreases ms,
{
    if ms.len() == 0 {
        Option::None
    } else {
        match spec_member_issue(ms[0]) {
            Option::Some(e) => Option::Some(e),
            Option::None => spec_first_member_issue(ms.drop_first()),
        }
    }
}

/// The first member problem across the whole request, in order.
pub open spec fn spec_members_issue(reqs: Seq<SpecTraitRequest>) -> Option<GenError>
    decreases reqs,
{
    if reqs.len() == 0 {
        Option::None
    } else {
        match spec_first_member_issue(reqs[0].decl.members) {
            Option::Some(e) => Option::Some(e),
            Option::None => spec_members_issue(reqs.drop_first()),
        }
    }
}

/// What resolution rejects, in the order the checks run: declaration
/// shapes and bounds first, then bounded associated types, then the
/// remaining member shapes.
pub open spec fn spec_resolution_error(reqs: Seq<SpecTraitRequest>) -> Option<GenError> {
    match spec_validate(reqs, Seq::empty()) {
        Result::Err(e) => Option::Some(e),
        Result::Ok(_paths) => if spec_has_bounded_assoc(reqs) {
            Option::Some(GenError::Unsupported(UnsupportedKind::AssocTypeBounds))
        } else {
            spec_members_issue(reqs)
        },
    }
}

/// One resolved interface: its fully-qualified path, its members, and
/// its assigned id.
#[derive(Debug, PartialEq, Eq)]
pub struct Descriptor {
    pub trait_path: QualName,
    pub members: Vec<TraitMember>,
    pub mock_type_id: usize,
}

pub struct SpecDescriptor {
    pub trait_path: SpecQualName,
    pub members: Seq<SpecTraitMember>,
    pub mock_type_id: usize,
}

impl View for Descriptor {
    type V = SpecDescriptor;

    open spec fn view(&self) -> SpecDescriptor {
        SpecDescriptor {
            trait_path: self.trait_path@,
            members: members_view(self.members@),
            mock_type_id: self.mock_type_id,
        }
    }
}

/// The resolver's output: the descriptors in request order and the
/// gathered associated-type names.
#[derive(Debug, PartialEq, Eq)]
pub struct Resolution {
    pub descriptors: Vec<Descriptor>,
    pub assoc_types: Vec<String>,
}

/// Whether a name is among the listed names.
pub fn contains_name(v: &Vec<QualName>, q: &QualName) -> (r: bool)
    ensures
        r == qual_names_view(v@).contains(q@),
{
    proof {
        lemma_qual_names_view_index(v@);
    }
    let mut i: usize = 0;
    while i < v.len()
        invariant
            i <= v@.len(),
            forall|j: int| 0 <= j < i ==> v@[j]@ != q@,
        decreases v@.len() - i,
    {
        if v[i].eq_name(q) {
            proof {
                assert(qual_names_view(v@)[i as int] == q@);
            }
            return true;
        }
        i = i + 1;
    }
    proof {
        assert forall|k: int| 0 <= k < qual_names_view(v@).len() implies qual_names_view(v@)[k]
            != q@ by {}
    }
    false
}

/// The fully-qualified path of a requested interface.
pub fn make_trait_path(req: &TraitRequest) -> (r: QualName)
    ensures
        r@ == spec_trait_path_of(req@),
{
    let mut segments = crate::ast::clone_strings(&req.mod_path.segments);
    segments.push(req.decl.name.clone());
    let r = QualName { global: req.mod_path.global, segments };
    proof {
        lemma_strings_view_index(r.segments@);
        lemma_strings_view_index(req.mod_path.segments@);
        assert(strings_view(r.segments@) =~= req.mod_path@.segments.push(req.decl.name@));
    }
    r
}

/// Resolve a request: validate every interface, gather the associated
/// types, and assign one fresh id per interface. A rejected request
/// leaves the counter untouched.
#[verifier::loop_isolation(false)]
pub fn resolve_traits(reqs: &Vec<TraitRequest>, counter: &mut IdCounter) -> (r: Result<
    Resolution,
    GenError,
>)
    requires
        old(counter).next + reqs@.len() <= usize::MAX,
    ensures
        match r {
            Result::Ok(res) => {
                &&& spec_resolution_error(requests_view(reqs@)) is None
                &&& final(counter).next == old(counter).next + reqs@.len()
                &&& res.descriptors@.len() == reqs@.len()
                &&& forall|i: int|
                    0 <= i < reqs@.len() ==> res.descriptors@[i]@ == (SpecDescriptor {
                        trait_path: spec_trait_path_of(reqs@[i]@),
                        members: reqs@[i]@.decl.members,
                        mock_type_id: (old(counter).next + i) as usize,
                    })
                &&& strings_view(res.assoc_types@) == spec_assoc_names(requests_view(reqs@))
            },
            Result::Err(e) => {
                &&& spec_resolution_error(requests_view(reqs@)) == Option::Some(e)
                &&& final(counter).next == old(counter).next
            },
        },
{
    proof {
        lemma_requests_view_index(reqs@);
    }
    let ghost full = requests_view(reqs@);

    // Trait-level and bound validation, accumulating the seen paths.
    let mut seen: Vec<QualName> = Vec::new();
    proof {
        assert(full.subrange(0, full.len() as int) =~= full);
        lemma_qual_names_view_index(seen@);
        assert(qual_names_view(seen@) =~= Seq::<SpecQualName>::empty());
    }
    let mut t: usize = 0;
    while t < reqs.len()
        invariant
            t <= reqs@.len(),
            full == requests_view(reqs@),
            full.len() == reqs@.len(),
            seen@.len() == t,
            forall|j: int| 0 <= j < t ==> seen@[j]@ == spec_trait_path_of(full[j]),
            spec_validate(full, Seq::empty()) == spec_validate(
                full.subrange(t as int, full.len() as int),
                qual_names_view(seen@),
            ),
            old(counter).next + reqs@.len() <= usize::MAX,
            counter == old(counter),
        decreases reqs@.len() - t,
    {
        let ghost suffix = full.subrange(t as int, full.len() as int);
        let ghost sv = qual_names_view(seen@);
        proof {
            lemma_qual_names_view_index(seen@);
            assert(suffix[0] == full[t as int]);
            assert(suffix.drop_first() =~= full.subrange(t + 1, full.len() as int));
        }
        let d = &reqs[t].decl;
        proof {
            assert(full[t as int].decl == d@);
        }
        if d.is_unsafe {
            proof {
                let e = GenError::Unsupported(UnsupportedKind::UnsafeTrait);
                assert(spec_trait_issue(full[t as int].decl, sv) == Option::Some(e));
                assert(spec_validate(full, Seq::empty()) == Result::<Seq<SpecQualName>, GenError>::Err(e));
            }
            return Result::Err(GenError::Unsupported(UnsupportedKind::UnsafeTrait));
        }
        if d.lifetime_params.len() > 0 || d.ty_params.len() > 0 || d.has_where_clause {
            proof {
                lemma_strings_view_index(d.lifetime_params@);
                lemma_strings_view_index(d.ty_params@);
                let e = GenError::Unsupported(UnsupportedKind::ParametrizedTrait);
                assert(spec_trait_issue(full[t as int].decl, sv) == Option::Some(e));
                assert(spec_validate(full, Seq::empty()) == Result::<Seq<SpecQualName>, GenError>::Err(e));
            }
            return Result::Err(GenError::Unsupported(UnsupportedKind::ParametrizedTrait));
        }
        proof {
            lemma_strings_view_index(d.lifetime_params@);
            lemma_strings_view_index(d.ty_params@);
        }
        // Bounds of this declaration, in order.
        let ghost sbounds = bounds_view(d.bounds@);
        proof {
            lemma_bounds_view_index(d.bounds@);
        }
        proof {
            assert(sbounds.subrange(0, sbounds.len() as int) =~= sbounds);
        }
        let mut b: usize = 0;
        while b < d.bounds.len()
            invariant
                b <= d.bounds@.len(),
                sbounds == bounds_view(d.bounds@),
                sbounds.len() == d.bounds@.len(),
                sv == qual_names_view(seen@),
                spec_first_bound_issue(sbounds, sv) == spec_first_bound_issue(
                    sbounds.subrange(b as int, sbounds.len() as int),
                    sv,
                ),
            decreases d.bounds@.len() - b,
        {
            let ghost bsuffix = sbounds.subrange(b as int, sbounds.len() as int);
            proof {
                assert(bsuffix[0] == sbounds[b as int]);
                assert(bsuffix.drop_first() =~= sbounds.subrange(b + 1, sbounds.len() as int));
            }
            let bound_err: Option<GenError> = match &d.bounds[b] {
                TraitBound::Lifetime => Option::Some(
                    GenError::Unsupported(UnsupportedKind::LifetimeBound),
                ),
                TraitBound::TraitRef { path, modifier_default, has_lifetimes } => {
                    if !*modifier_default {
                        Option::Some(GenError::Unsupported(UnsupportedKind::BoundModifier))
                    } else if *has_lifetimes {
                        Option::Some(GenError::Unsupported(UnsupportedKind::BoundLifetimes))
                    } else if !contains_name(&seen, path) {
                        Option::Some(GenError::UnresolvedBase(BaseIssue::NotInRequest))
                    } else {
                        Option::None
                    }
                },
            };
            match bound_err {
                Option::Some(e) => {
                    proof {
                        assert(bsuffix[0] == d.bounds@[b as int]@);
                        assert(spec_bound_issue(bsuffix[0], sv) == Option::Some(e));
                        assert(spec_first_bound_issue(bsuffix, sv) == Option::Some(e));
                        lemma_strings_view_index(d.lifetime_params@);
                        lemma_strings_view_index(d.ty_params@);
                        assert(!full[t as int].decl.is_unsafe);
                        assert(full[t as int].decl.lifetime_params.len() == 0);
                        assert(full[t as int].decl.ty_params.len() == 0);
                        assert(!full[t as int].decl.has_where_clause);
                        assert(full[t as int].decl.bounds == sbounds);
                        assert(spec_first_bound_issue(full[t as int].decl.bounds, sv)
                            == Option::Some(e));
                        assert(spec_trait_issue(full[t as int].decl, sv) == Option::Some(e));
                        assert(spec_validate(full, Seq::empty()) == Result::<
                            Seq<SpecQualName>,
                            GenError,
                        >::Err(e));
                    }
                    return Result::Err(e);
                },
                Option::None => {},
            }
            b = b + 1;
        }
        proof {
            assert(sbounds.subrange(sbounds.len() as int, sbounds.len() as int)
                =~= Seq::<SpecTraitBound>::empty());
        }
        let tp = make_trait_path(&reqs[t]);
        seen.push(tp);
        proof {
            lemma_qual_names_view_index(seen@);
            assert(qual_names_view(seen@) =~= sv.push(spec_trait_path_of(full[t as int])));
        }
        t = t + 1;
    }
    proof {
        assert(full.subrange(full.len() as int, full.len() as int)
            =~= Seq::<SpecTraitRequest>::empty());
    }

    // Gather associated types; bounded associated types are rejected.
    let mut assoc: Vec<String> = Vec::new();
    let mut t2: usize = 0;
    while t2 < reqs.len()
        invariant
            t2 <= reqs@.len(),
            full == requests_view(reqs@),
            full.len() == reqs@.len(),
            strings_view(assoc@) == spec_assoc_names(full.subrange(0, t2 as int)),
            forall|i: int, j: int|
                0 <= i < t2 && 0 <= j < full[i].decl.members.len() ==> !((
                #[trigger] full[i].decl.members[j]) matches SpecTraitMember::AssocType {
                    has_bounds: true,
                    ..
                }),
            spec_validate(full, Seq::empty()) is Ok,
            old(counter).next + reqs@.len() <= usize::MAX,
            counter == old(counter),
        decreases reqs@.len() - t2,
    {
        let ms = &reqs[t2].decl.members;
        let ghost sm = members_view(ms@);
        proof {
            lemma_members_view_index(ms@);
            assert(sm == full[t2 as int].decl.members);
        }
        proof {
            assert(sm.take(0) =~= Seq::<SpecTraitMember>::empty());
            assert(spec_assoc_names(full.subrange(0, t2 as int)) + spec_assoc_names_members(
                sm.take(0),
            ) =~= spec_assoc_names(full.subrange(0, t2 as int)));
        }
        let mut j: usize = 0;
        while j < ms.len()
            invariant
                j <= ms@.len(),
                sm == members_view(ms@),
                sm.len() == ms@.len(),
                strings_view(assoc@) == spec_assoc_names(full.subrange(0, t2 as int))
                    + spec_assoc_names_members(sm.take(j as int)),
                forall|k: int|
                    0 <= k < j ==> !((#[trigger] sm[k]) matches SpecTraitMember::AssocType {
                        has_bounds: true,
                        ..
                    }),
            decreases ms@.len() - j,
        {
            proof {
                assert(sm.take(j + 1) =~= sm.take(j as int).push(sm[j as int]));
                lemma_assoc_names_members_snoc(sm.take(j as int), sm[j as int]);
            }
            match &ms[j] {
                TraitMember::AssocType { name, has_bounds } => {
                    if *has_bounds {
                        proof {
                            assert(sm[j as int] == ms@[j as int]@);
                            assert((full[t2 as int].decl.members[j as int])
                                matches SpecTraitMember::AssocType { has_bounds: true, .. });
                            assert(spec_has_bounded_assoc(full));
                        }
                        return Result::Err(
                            GenError::Unsupported(UnsupportedKind::AssocTypeBounds),
                        );
                    }
                    let ghost old_assoc = assoc@;
                    assoc.push(name.clone());
                    proof {
                        assert(sm[j as int] == ms@[j as int]@);
                        lemma_strings_view_index(assoc@);
                        lemma_strings_view_index(old_assoc);
                        assert(strings_view(assoc@) =~= strings_view(old_assoc).push(name@));
                        assert(spec_assoc_names_members(sm.take(j + 1))
                            =~= spec_assoc_names_members(sm.take(j as int)) + seq![name@]);
                        assert(strings_view(assoc@) =~= spec_assoc_names(
                            full.subrange(0, t2 as int),
                        ) + spec_assoc_names_members(sm.take(j + 1)));
                    }
                },
                _ => {},
            }
            j = j + 1;
        }
        proof {
            assert(sm.take(sm.len() as int) =~= sm);
            assert(full.subrange(0, t2 + 1) =~= full.subrange(0, t2 as int).push(
                full[t2 as int],
            ));
            lemma_assoc_names_snoc(full.subrange(0, t2 as int), full[t2 as int]);
        }
        t2 = t2 + 1;
    }
    proof {
        assert(full.subrange(0, full.len() as int) =~= full);
        assert(!spec_has_bounded_assoc(full));
    }

    // Remaining member-shape validation, in order.
    proof {
        assert(full.subrange(0, full.len() as int) =~= full);
    }
    let mut t3: usize = 0;
    while t3 < reqs.len()
        invariant
            t3 <= reqs@.len(),
            full == requests_view(reqs@),
            full.len() == reqs@.len(),
            spec_members_issue(full) == spec_members_issue(
                full.subrange(t3 as int, full.len() as int),
            ),
            spec_validate(full, Seq::empty()) is Ok,
            !spec_has_bounded_assoc(full),
            old(counter).next + reqs@.len() <= usize::MAX,
            counter == old(counter),
        decreases reqs@.len() - t3,
    {
        let ghost suffix = full.subrange(t3 as int, full.len() as int);
        proof {
            assert(suffix[0] == full[t3 as int]);
            assert(suffix.drop_first() =~= full.subrange(t3 + 1, full.len() as int));
        }
        let ms = &reqs[t3].decl.members;
        let ghost sm = members_view(ms@);
        proof {
            lemma_members_view_index(ms@);
            assert(sm == full[t3 as int].decl.members);
        }
        proof {
            assert(sm.subrange(0, sm.len() as int) =~= sm);
        }
        let mut j: usize = 0;
        while j < ms.len()
            invariant
                j <= ms@.len(),
                sm == members_view(ms@),
                sm.len() == ms@.len(),
                spec_first_member_issue(sm) == spec_first_member_issue(
                    sm.subrange(j as int, sm.len() as int),
                ),
            decreases ms@.len() - j,
        {
            let ghost msuffix = sm.subrange(j as int, sm.len() as int);
            proof {
                assert(msuffix[0] == sm[j as int]);
                assert(msuffix.drop_first() =~= sm.subrange(j + 1, sm.len() as int));
            }
            let member_err: Option<GenError> = match &ms[j] {
                TraitMember::Method(sig) => {
                    if sig.is_unsafe {
                        Option::Some(GenError::Unsupported(UnsupportedKind::UnsafeMethod))
                    } else if sig.is_const {
                        Option::Some(GenError::Unsupported(UnsupportedKind::ConstMethod))
                    } else if sig.has_abi {
                        Option::Some(GenError::Unsupported(UnsupportedKind::NonRustAbi))
                    } else {
                        Option::None
                    }
                },
                TraitMember::AssocType { name: _name, has_bounds } => {
                    if *has_bounds {
                        Option::Some(GenError::Unsupported(UnsupportedKind::AssocTypeBounds))
                    } else {
                        Option::None
                    }
                },
                TraitMember::ConstItem => Option::Some(
                    GenError::Unsupported(UnsupportedKind::TraitConst),
                ),
                TraitMember::MacroItem => Option::Some(
                    GenError::Unsupported(UnsupportedKind::TraitMacro),
                ),
            };
            match member_err {
                Option::Some(e) => {
                    proof {
                        assert(msuffix[0] == ms@[j as int]@);
                        assert(spec_member_issue(msuffix[0]) == Option::Some(e));
                        assert(spec_first_member_issue(msuffix) == Option::Some(e));
                        assert(spec_first_member_issue(sm) == Option::Some(e));
                        assert(suffix[0].decl.members == sm);
                        assert(spec_members_issue(suffix) == Option::Some(e));
                        assert(spec_members_issue(full) == Option::Some(e));
                    }
                    return Result::Err(e);
                },
                Option::None => {},
            }
            j = j + 1;
        }
        proof {
            assert(sm.subrange(sm.len() as int, sm.len() as int)
                =~= Seq::<SpecTraitMember>::empty());
        }
        t3 = t3 + 1;
    }
    proof {
        assert(full.subrange(full.len() as int, full.len() as int)
            =~= Seq::<SpecTraitRequest>::empty());
    }

    // All validation passed: assign ids and build the descriptors.
    let mut descriptors: Vec<Descriptor> = Vec::new();
    let mut t4: usize = 0;
    while t4 < reqs.len()
        invariant
            t4 <= reqs@.len(),
            full == requests_view(reqs@),
            full.len() == reqs@.len(),
            old(counter).next + reqs@.len() <= usize::MAX,
            counter.next == old(counter).next + t4,
            descriptors@.len() == t4,
            forall|i: int|
                0 <= i < t4 ==> descriptors@[i]@ == (SpecDescriptor {
                    trait_path: spec_trait_path_of(reqs@[i]@),
                    members: reqs@[i]@.decl.members,
                    mock_type_id: (old(counter).next + i) as usize,
                }),
        decreases reqs@.len() - t4,
    {
        let id = counter.fresh_id();
        let tp = make_trait_path(&reqs[t4]);
        let members = clone_members(&reqs[t4].decl.members);
        descriptors.push(Descriptor { trait_path: tp, members, mock_type_id: id });
        t4 = t4 + 1;
    }

    Result::Ok(Resolution { descriptors, assoc_types: assoc })
}

} // verus!
