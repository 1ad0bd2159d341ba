//! Properties of generation that hold for every input, stated and
//! proved over the same spec functions the generation contracts use.

use vstd::prelude::*;

use crate::decl::{SpecMethodArg, SpecTraitRequest};
use crate::gen::SpecMockOutput;
use crate::methodgen::{
    spec_fresh_lifetimes, spec_gen_method, spec_qualify_args, spec_args_named,
};
use crate::codegen::{spec_output_ok, spec_section_of};
use crate::resolve::{spec_assoc_names, spec_trait_path_of};
use crate::ast::{SpecQualName, SpecTy, SpecTyPath};

verus! {

/// Generation is deterministic: two outputs of the same request, the
/// same mock name, the same starting id and the same mode are the same
/// output.
pub proof fn lemma_generation_deterministic(
    out1: SpecMockOutput,
    out2: SpecMockOutput,
    mock_name: Seq<char>,
    reqs: Seq<SpecTraitRequest>,
    first_id: usize,
    local: bool,
)
    requires
        spec_output_ok(out1, mock_name, reqs, first_id, local),
        spec_output_ok(out2, mock_name, reqs, first_id, local),
    ensures
        out1 == out2,
{
    assert(out1.sections =~= out2.sections);
    assert(out1.mock_struct == out2.mock_struct);
    assert(out1.assoc_types == out2.assoc_types);
    assert(out1.mock_impl == out2.mock_impl);
    assert(out1.mocked_impl_for == out2.mocked_impl_for);
}

/// An interface set with `N` associated types yields a mock type with
/// exactly `N` generic parameters and exactly one zero-size marker per
/// associated type, and nothing besides the fixed engine-handle and
/// instance-id fields.
pub proof fn lemma_assoc_types_become_params(
    out: SpecMockOutput,
    mock_name: Seq<char>,
    reqs: Seq<SpecTraitRequest>,
    first_id: usize,
    local: bool,
)
    requires
        spec_output_ok(out, mock_name, reqs, first_id, local),
    ensures
        out.mock_struct.name == mock_name,
        out.mock_struct.ty_params == spec_assoc_names(reqs),
        out.mock_struct.phantom_markers == spec_assoc_names(reqs),
        out.mock_struct.ty_params.len() == spec_assoc_names(reqs).len(),
{
}

/// The resolved descriptor list of a request with `k` bases has length
/// `k + 1`, is ordered bases first and primary last, and every
/// descriptor carries a distinct interface id.
pub proof fn lemma_descriptor_list(
    out: SpecMockOutput,
    mock_name: Seq<char>,
    reqs: Seq<SpecTraitRequest>,
    first_id: usize,
    local: bool,
)
    requires
        spec_output_ok(out, mock_name, reqs, first_id, local),
        first_id + reqs.len() <= usize::MAX,
    ensures
        out.sections.len() == reqs.len(),
        forall|i: int|
            0 <= i < reqs.len() ==> (#[trigger] out.sections[i]).trait_path
                == spec_trait_path_of(reqs[i]) && out.sections[i].mock_type_id == first_id + i,
        forall|i: int, j: int|
            0 <= i < j < reqs.len() ==> (#[trigger] out.sections[i]).mock_type_id != (
            #[trigger] out.sections[j]).mock_type_id,
{
    assert forall|i: int| 0 <= i < reqs.len() implies (#[trigger] out.sections[i]).trait_path
        == spec_trait_path_of(reqs[i]) && out.sections[i].mock_type_id == first_id + i by {
        assert(out.sections[i] == spec_section_of(
            reqs[i],
            (first_id + i) as usize,
            mock_name,
            spec_assoc_names(reqs),
            Seq::new(reqs.len(), |k: int| (first_id + k) as usize),
        ));
    }
}

/// How many parameters of a list are reference-typed.
pub open spec fn spec_ref_count(args: Seq<SpecMethodArg>) -> int
    decreases args,
{
    if args.len() == 0 {
        0
    } else {
        (if args[0].ty is Ref {
            1int
        } else {
            0int
        }) + spec_ref_count(args.drop_first())
    }
}

/// The fresh lifetimes of an argument list are exactly one per
/// reference-typed argument: their count is the reference count, each
/// names a reference position, every reference position is named, and
/// they are strictly increasing (so all distinct).
pub proof fn lemma_fresh_lifetimes_exact(args: Seq<SpecMethodArg>, k: int)
    requires
        0 <= k,
        k + args.len() <= usize::MAX,
    ensures
        spec_fresh_lifetimes(args, k).len() == spec_ref_count(args),
        forall|n: int|
            0 <= n < spec_fresh_lifetimes(args, k).len() ==> k <= #[trigger] spec_fresh_lifetimes(
                args,
                k,
            )[n] < k + args.len() && args[spec_fresh_lifetimes(args, k)[n] - k].ty is Ref,
        forall|i: int|
            0 <= i < args.len() && args[i].ty is Ref ==> spec_fresh_lifetimes(args, k).contains(
                (k + i) as usize,
            ),
        forall|n1: int, n2: int|
            0 <= n1 < n2 < spec_fresh_lifetimes(args, k).len() ==> spec_fresh_lifetimes(args, k)[n1]
                < spec_fresh_lifetimes(args, k)[n2],
    decreases args,
{
    let fl = spec_fresh_lifetimes(args, k);
    if args.len() > 0 {
        lemma_fresh_lifetimes_exact(args.drop_first(), k + 1);
        let rest = spec_fresh_lifetimes(args.drop_first(), k + 1);
        assert forall|i: int| 0 <= i < args.len() && args[i].ty is Ref implies fl.contains(
            (k + i) as usize,
        ) by {
            if i == 0 {
                assert(fl[0] == (k as usize));
            } else {
                assert(args.drop_first()[i - 1] == args[i]);
                assert(rest.contains((k + i) as usize));
                let n = choose|n: int| 0 <= n < rest.len() && rest[n] == (k + i) as usize;
                if args[0].ty is Ref {
                    assert(fl[n + 1] == rest[n]);
                } else {
                    assert(fl[n] == rest[n]);
                }
            }
        }
    }
}

/// For an instance method accepted by generation: the expectation
/// builder's generic signature introduces exactly one fresh lifetime
/// per reference-typed parameter, and the forwarding implementation's
/// parameter list is the declared one, unchanged.
pub proof fn lemma_builder_lifetimes(
    m: crate::decl::SpecMethodSig,
    tp: SpecQualName,
    id: usize,
    sp: SpecTyPath,
)
    requires
        spec_gen_method(m, tp, id, sp) is Ok,
        m.receiver is Some,
        m.args.len() <= usize::MAX,
    ensures
        spec_gen_method(m, tp, id, sp)->Ok_0.stub.args == m.args,
        spec_gen_method(m, tp, id, sp)->Ok_0.builder.lifetimes.len() == spec_ref_count(m.args),
        forall|n1: int, n2: int|
            0 <= n1 < n2 < spec_gen_method(m, tp, id, sp)->Ok_0.builder.lifetimes.len()
                ==> spec_gen_method(m, tp, id, sp)->Ok_0.builder.lifetimes[n1] != spec_gen_method(
                m,
                tp,
                id,
                sp,
            )->Ok_0.builder.lifetimes[n2],
{
    let qargs = spec_qualify_args(m.args, tp);
    lemma_qualify_preserves_ref(m.args, tp);
    lemma_ref_count_pointwise(m.args, qargs);
    lemma_fresh_lifetimes_exact(qargs, 0);
}

/// Qualifying `Self` references never makes or unmakes a reference
/// type.
pub proof fn lemma_qualify_preserves_ref(args: Seq<SpecMethodArg>, tp: SpecQualName)
    ensures
        spec_qualify_args(args, tp).len() == args.len(),
        forall|i: int|
            0 <= i < args.len() ==> ((#[trigger] spec_qualify_args(args, tp)[i]).ty is Ref
                <==> args[i].ty is Ref),
{
    assert forall|i: int| 0 <= i < args.len() implies ((#[trigger] spec_qualify_args(args, tp)[i])
        .ty is Ref <==> args[i].ty is Ref) by {
        let t = args[i].ty;
        match t {
            SpecTy::Ref(_lt, _mu, _inner) => {},
            SpecTy::Path(p) => {
                if crate::rewrite::spec_is_self_head(p) {
                    assert(crate::rewrite::spec_apply_self(
                        p.segments[0],
                        p.segments.drop_first(),
                        crate::rewrite::SpecRewriteMode::Qualify(tp),
                    ) is Path);
                }
            },
            _ => {},
        }
    }
}

/// Two pointwise reference-equivalent argument lists have the same
/// reference count.
pub proof fn lemma_ref_count_pointwise(a: Seq<SpecMethodArg>, b: Seq<SpecMethodArg>)
    requires
        a.len() == b.len(),
        forall|i: int| 0 <= i < a.len() ==> (a[i].ty is Ref <==> (#[trigger] b[i]).ty is Ref),
    ensures
        spec_ref_count(a) == spec_ref_count(b),
    decreases a,
{
    if a.len() > 0 {
        assert(forall|i: int|
            0 <= i < a.drop_first().len() ==> (a.drop_first()[i].ty is Ref <==> (
            #[trigger] b.drop_first()[i]).ty is Ref));
        lemma_ref_count_pointwise(a.drop_first(), b.drop_first());
    }
}

/// The forwarding call's argument count always equals the declared
/// parameter count, and the builder constructs the call-matcher family
/// of exactly that count with one boxed matcher per argument: the
/// mismatched-count failure class is unreachable in generated output.
pub proof fn lemma_forwarding_count_consistent(
    m: crate::decl::SpecMethodSig,
    tp: SpecQualName,
    id: usize,
    sp: SpecTyPath,
)
    requires
        spec_gen_method(m, tp, id, sp) is Ok,
        m.args.len() <= usize::MAX,
    ensures
        spec_gen_method(m, tp, id, sp)->Ok_0.stub.verify_n == spec_gen_method(
            m,
            tp,
            id,
            sp,
        )->Ok_0.stub.args.len(),
        spec_gen_method(m, tp, id, sp)->Ok_0.builder.call_match_n == spec_gen_method(
            m,
            tp,
            id,
            sp,
        )->Ok_0.builder.matchers.len(),
        spec_gen_method(m, tp, id, sp)->Ok_0.stub.args == m.args,
{
}

/// An interface declaration carrying a generic type parameter is
/// rejected outright: the primary (or only) interface of a request
/// that is otherwise reachable fails with the parametrized-shape
/// error, and no output is produced.
pub proof fn lemma_reject_parametrized(req: SpecTraitRequest)
    requires
        req.decl.ty_params.len() > 0,
        !req.decl.is_unsafe,
    ensures
        crate::codegen::spec_gen_error(seq![req]) == Option::Some(
            crate::decl::GenError::Unsupported(crate::decl::UnsupportedKind::ParametrizedTrait),
        ),
{
    let reqs = seq![req];
    assert(reqs[0] == req);
    assert(crate::resolve::spec_validate(reqs, Seq::empty()) == Result::<
        Seq<SpecQualName>,
        crate::decl::GenError,
    >::Err(
        crate::decl::GenError::Unsupported(crate::decl::UnsupportedKind::ParametrizedTrait),
    ));
}

} // verus!
