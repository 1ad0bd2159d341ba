//! Per-method code generation.
//!
//! For each interface method two artifacts are derived: the forwarding
//! (stub) method that hands the call to the dispatch engine's
//! argument-count-indexed verification entry point, and the
//! expectation-builder method (`<name>_call`) whose generic signature
//! introduces one matcher parameter per argument and one fresh lifetime
//! per reference-typed parameter. A method whose first parameter is not
//! a receiver is static: its stub locates the engine through the
//! static-mock table, and `Self` in its return type is replaced by the
//! concrete mock path.

use vstd::prelude::*;

use crate::ast::{
    strings_view, ty_view, tys_view, QualName, SpecQualName, SpecTy, SpecTyPath, Ty, TyPath,
    lemma_strings_view_index, lemma_tys_view_index, clone_strings,
};
use crate::decl::{
    args_view, clone_args, lemma_args_view_index, ArgPat, GenError, MethodArg, MethodSig,
    Receiver, SpecArgPat, SpecMethodArg, SpecMethodSig, UnsupportedKind,
};
use crate::gen::{
    lemma_matchers_view_index, lemma_typarams_view_index, matchers_view, typarams_view,
    BuilderMethodDef, MatcherParam, MethodPair, SpecBuilderMethodDef, SpecMatcherParam,
    SpecMethodPair, SpecStubMethodDef, SpecTyParamDecl, StubMethodDef, TyParamDecl,
};
use crate::rewrite::{qualify_self, set_self, spec_qualify_self, spec_set_self};

verus! {

/// The method's return type; an omitted one stands for the empty tuple.
pub open spec fn spec_ret_of(m: SpecMethodSig) -> SpecTy {
    match m.ret {
        Option::None => SpecTy::Tuple(Seq::empty()),
        Option::Some(t) => t,
    }
}

/// Whether every parameter is bound by a plain identifier.
pub open spec fn spec_args_named(args: Seq<SpecMethodArg>) -> bool {
    forall|i: int| 0 <= i < args.len() ==> args[i].pat is Named
}

/// The matcher-facing type of one argument: a reference type gets the
/// fresh lifetime of its position, so a matcher may accept borrowed
/// data without binding the interface's own lifetime; any other type is
/// kept.
pub open spec fn spec_fresh_ref(t: SpecTy, i: int) -> SpecTy {
    match t {
        SpecTy::Ref(_lt, mu, inner) => SpecTy::Ref(
            Option::Some(crate::ast::SpecLifetime::Fresh(i as usize)),
            mu,
            inner,
        ),
        _ => t,
    }
}

/// The argument list with each type qualified against the interface.
pub open spec fn spec_qualify_args(args: Seq<SpecMethodArg>, tp: SpecQualName) -> Seq<
    SpecMethodArg,
> {
    Seq::new(
        args.len(),
        |i: int| SpecMethodArg { pat: args[i].pat, ty: spec_qualify_self(args[i].ty, tp) },
    )
}

/// The fresh lifetime indices of an argument list starting at position
/// `k`: one per reference-typed argument, in order.
pub open spec fn spec_fresh_lifetimes(args: Seq<SpecMethodArg>, k: int) -> Seq<usize>
    decreases args,
{
    if args.len() == 0 {
        Seq::empty()
    } else {
        (if args[0].ty is Ref {
            seq![k as usize]
        } else {
            Seq::empty()
        }) + spec_fresh_lifetimes(args.drop_first(), k + 1)
    }
}

/// Appending one argument appends its lifetime, if it is a reference.
pub proof fn lemma_fresh_lifetimes_snoc(s: Seq<SpecMethodArg>, x: SpecMethodArg, k: int)
    requires
        0 <= k,
        k + s.len() <= usize::MAX,
    ensures
        spec_fresh_lifetimes(s.push(x), k) == spec_fresh_lifetimes(s, k) + (if x.ty is Ref {
            seq![(k + s.len()) as usize]
        } else {
            Seq::<usize>::empty()
        }),
    decreases s,
{
    let tail: Seq<usize> = if x.ty is Ref {
        seq![(k + s.len()) as usize]
    } else {
        Seq::empty()
    };
    if s.len() == 0 {
        reveal_with_fuel(spec_fresh_lifetimes, 2);
        assert(s.push(x)[0] == x);
        assert(s.push(x).drop_first() =~= Seq::<SpecMethodArg>::empty());
        assert(spec_fresh_lifetimes(s.push(x), k) =~= spec_fresh_lifetimes(s, k) + tail);
    } else {
        assert(s.push(x)[0] == s[0]);
        assert(s.push(x).drop_first() =~= s.drop_first().push(x));
        lemma_fresh_lifetimes_snoc(s.drop_first(), x, k + 1);
        assert(spec_fresh_lifetimes(s.push(x), k) =~= spec_fresh_lifetimes(s, k) + tail);
    }
}

/// The generated expectation builder for a method, over the already
/// rewritten argument and return types.
pub open spec fn spec_builder_method(
    name: Seq<char>,
    ty_params: Seq<Seq<char>>,
    args: Seq<SpecMethodArg>,
    ret: SpecTy,
    id: usize,
) -> SpecBuilderMethodDef {
    SpecBuilderMethodDef {
        name: name + "_call"@,
        method_name: name,
        lifetimes: spec_fresh_lifetimes(args, 0),
        ty_params: Seq::new(
            ty_params.len(),
            |i: int| SpecTyParamDecl { name: ty_params[i], debug_bound: true },
        ),
        matchers: Seq::new(
            args.len(),
            |i: int|
                SpecMatcherParam { index: i as usize, matched_ty: spec_fresh_ref(args[i].ty, i) },
        ),
        call_match_n: args.len() as usize,
        call_match_args: Seq::new(args.len(), |i: int| spec_fresh_ref(args[i].ty, i)) + seq![ret],
        mock_type_id: id,
    }
}

/// The generated forwarding stub for a method.
pub open spec fn spec_stub_method(
    name: Seq<char>,
    ty_params: Seq<Seq<char>>,
    receiver: Option<Receiver>,
    args: Seq<SpecMethodArg>,
    ret: SpecTy,
    id: usize,
    via_static_lookup: bool,
    is_unsafe: bool,
) -> SpecStubMethodDef {
    SpecStubMethodDef {
        name: name,
        ty_params: ty_params,
        receiver: receiver,
        args: args,
        ret: ret,
        mock_type_id: id,
        verify_n: args.len() as usize,
        via_static_lookup: via_static_lookup,
        is_unsafe: is_unsafe,
    }
}

/// What is generated for one trait method. A parameter bound by
/// anything but a plain identifier fails the whole generation. An
/// instance method's builder sees `Self` qualified against the owning
/// interface; a static method keeps its declared parameters and has
/// `Self` in its return type replaced by the concrete mock path, and
/// its stub reaches the engine through the static-mock table.
pub open spec fn spec_gen_method(
    m: SpecMethodSig,
    trait_path: SpecQualName,
    id: usize,
    struct_path: SpecTyPath,
) -> Result<SpecMethodPair, GenError> {
    if !spec_args_named(m.args) {
        Result::Err(GenError::Unsupported(UnsupportedKind::NonIdentParam))
    } else if m.receiver is None {
        let ret = spec_set_self(spec_ret_of(m), struct_path);
        Result::Ok(
            SpecMethodPair {
                is_static: true,
                stub: spec_stub_method(
                    m.name,
                    m.ty_params,
                    Option::None,
                    m.args,
                    ret,
                    id,
                    true,
                    false,
                ),
                builder: spec_builder_method(m.name, m.ty_params, m.args, ret, id),
            },
        )
    } else {
        Result::Ok(
            SpecMethodPair {
                is_static: false,
                stub: spec_stub_method(
                    m.name,
                    m.ty_params,
                    m.receiver,
                    m.args,
                    spec_ret_of(m),
                    id,
                    false,
                    false,
                ),
                builder: spec_builder_method(
                    m.name,
                    m.ty_params,
                    spec_qualify_args(m.args, trait_path),
                    spec_qualify_self(spec_ret_of(m), trait_path),
                    id,
                ),
            },
        )
    }
}

/// The declared return type, or the empty tuple when omitted.
pub fn ret_of(m: &MethodSig) -> (r: Ty)
    ensures
        ty_view(r) == spec_ret_of(m@),
{
    match &m.ret {
        Option::None => {
            let r = Ty::Tuple(Vec::new());
            proof {
                assert(tys_view(Seq::<Ty>::empty()) =~= Seq::<SpecTy>::empty());
            }
            r
        },
        Option::Some(t) => t.deep_clone(),
    }
}

/// Whether every parameter is bound by a plain identifier.
pub fn args_named(args: &Vec<MethodArg>) -> (r: bool)
    ensures
        r == spec_args_named(args_view(args@)),
{
    proof {
        lemma_args_view_index(args@);
    }
    let mut i: usize = 0;
    while i < args.len()
        invariant
            i <= args@.len(),
            forall|j: int| 0 <= j < i ==> args_view(args@)[j].pat is Named,
        decreases args@.len() - i,
    {
        match &args[i].pat {
            ArgPat::Named(_n) => {},
            ArgPat::Other => {
                proof {
                    assert(args_view(args@)[i as int].pat is Other);
                }
                return false;
            },
        }
        i = i + 1;
    }
    true
}

/// The argument list with each type qualified against the interface.
fn qualify_args(args: &Vec<MethodArg>, tp: &QualName) -> (r: Vec<MethodArg>)
    ensures
        args_view(r@) == spec_qualify_args(args_view(args@), tp@),
{
    let mut out: Vec<MethodArg> = Vec::new();
    let mut i: usize = 0;
    while i < args.len()
        invariant
            i <= args@.len(),
            out@.len() == i,
            forall|j: int| 0 <= j < i ==> out@[j]@ == (SpecMethodArg {
                pat: args@[j]@.pat,
                ty: spec_qualify_self(args@[j]@.ty, tp@),
            }),
        decreases args@.len() - i,
    {
        let pat = match &args[i].pat {
            ArgPat::Named(n) => ArgPat::Named(n.clone()),
            ArgPat::Other => ArgPat::Other,
        };
        let ty = qualify_self(&args[i].ty, tp);
        out.push(MethodArg { pat, ty });
        i = i + 1;
    }
    proof {
        lemma_args_view_index(out@);
        lemma_args_view_index(args@);
        assert(args_view(out@) =~= spec_qualify_args(args_view(args@), tp@));
    }
    out
}

/// The matcher-facing type of one argument position.
fn fresh_ref(t: &Ty, i: usize) -> (r: Ty)
    ensures
        ty_view(r) == spec_fresh_ref(ty_view(*t), i as int),
{
    match t {
        Ty::Ref(_lt, mu, inner) => Ty::Ref(
            Option::Some(crate::ast::Lifetime::Fresh(i)),
            *mu,
            Box::new((**inner).deep_clone()),
        ),
        _ => t.deep_clone(),
    }
}

/// Build the expectation-builder method from rewritten argument and
/// return types.
fn build_builder(
    name: &String,
    ty_params: &Vec<String>,
    args: &Vec<MethodArg>,
    ret: &Ty,
    id: usize,
) -> (r: BuilderMethodDef)
    ensures
        r@ == spec_builder_method(name@, strings_view(ty_params@), args_view(args@), ty_view(*ret), id),
{
    proof {
        lemma_args_view_index(args@);
        lemma_strings_view_index(ty_params@);
    }
    let ghost sargs = args_view(args@);

    let mut builder_name = name.clone();
    builder_name.append("_call");

    let mut lifetimes: Vec<usize> = Vec::new();
    let mut matchers: Vec<MatcherParam> = Vec::new();
    let mut call_match_args: Vec<Ty> = Vec::new();
    let mut i: usize = 0;
    while i < args.len()
        invariant
            i <= args@.len(),
            sargs == args_view(args@),
            sargs.len() == args@.len(),
            lifetimes@ == spec_fresh_lifetimes(sargs.take(i as int), 0),
            matchers@.len() == i,
            forall|j: int| 0 <= j < i ==> matchers@[j]@ == (SpecMatcherParam {
                index: j as usize,
                matched_ty: spec_fresh_ref(sargs[j].ty, j),
            }),
            call_match_args@.len() == i,
            forall|j: int| 0 <= j < i ==> ty_view(call_match_args@[j]) == spec_fresh_ref(
                sargs[j].ty,
                j,
            ),
        decreases args@.len() - i,
    {
        let is_ref = match &args[i].ty {
            Ty::Ref(_a, _b, _c) => true,
            _ => false,
        };
        proof {
            assert(sargs.take(i + 1) =~= sargs.take(i as int).push(sargs[i as int]));
            lemma_fresh_lifetimes_snoc(sargs.take(i as int), sargs[i as int], 0);
        }
        if is_ref {
            lifetimes.push(i);
        }
        let mt = fresh_ref(&args[i].ty, i);
        let mt2 = fresh_ref(&args[i].ty, i);
        matchers.push(MatcherParam { index: i, matched_ty: mt });
        call_match_args.push(mt2);
        i = i + 1;
    }
    proof {
        assert(sargs.take(sargs.len() as int) =~= sargs);
    }
    let ret_c = ret.deep_clone();
    call_match_args.push(ret_c);

    let mut tps: Vec<TyParamDecl> = Vec::new();
    let mut k: usize = 0;
    while k < ty_params.len()
        invariant
            k <= ty_params@.len(),
            tps@.len() == k,
            forall|j: int| 0 <= j < k ==> tps@[j]@ == (SpecTyParamDecl {
                name: ty_params@[j]@,
                debug_bound: true,
            }),
        decreases ty_params@.len() - k,
    {
        tps.push(TyParamDecl { name: ty_params[k].clone(), debug_bound: true });
        k = k + 1;
    }

    let n = args.len();
    let r = BuilderMethodDef {
        name: builder_name,
        method_name: name.clone(),
        lifetimes,
        ty_params: tps,
        matchers,
        call_match_n: n,
        call_match_args,
        mock_type_id: id,
    };
    proof {
        let s = spec_builder_method(name@, strings_view(ty_params@), sargs, ty_view(*ret), id);
        lemma_matchers_view_index(r.matchers@);
        lemma_typarams_view_index(r.ty_params@);
        lemma_tys_view_index(r.call_match_args@);
        assert(matchers_view(r.matchers@) =~= s.matchers);
        assert(typarams_view(r.ty_params@) =~= s.ty_params);
        assert(tys_view(r.call_match_args@) =~= s.call_match_args);
    }
    r
}

/// Build the forwarding stub from its emitted parameter and return
/// types.
fn build_stub(
    name: &String,
    ty_params: &Vec<String>,
    receiver: Option<Receiver>,
    args: &Vec<MethodArg>,
    ret: Ty,
    id: usize,
    via_static_lookup: bool,
    is_unsafe: bool,
) -> (r: StubMethodDef)
    ensures
        r@ == spec_stub_method(
            name@,
            strings_view(ty_params@),
            receiver,
            args_view(args@),
            ty_view(ret),
            id,
            via_static_lookup,
            is_unsafe,
        ),
{
    let n = args.len();
    StubMethodDef {
        name: name.clone(),
        ty_params: clone_strings(ty_params),
        receiver,
        args: clone_args(args),
        ret,
        mock_type_id: id,
        verify_n: n,
        via_static_lookup,
        is_unsafe,
    }
}

/// What is generated for one trait method: its forwarding stub and its
/// expectation builder; see `spec_gen_method`.
pub fn generate_trait_methods(
    m: &MethodSig,
    trait_path: &QualName,
    id: usize,
    struct_path: &TyPath,
) -> (r: Result<MethodPair, GenError>)
    ensures
        match r {
            Result::Ok(p) => spec_gen_method(m@, trait_path@, id, struct_path@) == Result::<
                SpecMethodPair,
                GenError,
            >::Ok(p@),
            Result::Err(e) => spec_gen_method(m@, trait_path@, id, struct_path@) == Result::<
                SpecMethodPair,
                GenError,
            >::Err(e),
        },
{
    if !args_named(&m.args) {
        return Result::Err(GenError::Unsupported(UnsupportedKind::NonIdentParam));
    }
    let base_ret = ret_of(m);
    match m.receiver {
        Option::None => {
            let ret = set_self(&base_ret, struct_path);
            let ret2 = ret.deep_clone();
            let stub = build_stub(
                &m.name,
                &m.ty_params,
                Option::None,
                &m.args,
                ret,
                id,
                true,
                false,
            );
            let builder = build_builder(&m.name, &m.ty_params, &m.args, &ret2, id);
            Result::Ok(MethodPair { is_static: true, stub, builder })
        },
        Option::Some(recv) => {
            let stub = build_stub(
                &m.name,
                &m.ty_params,
                Option::Some(recv),
                &m.args,
                base_ret,
                id,
                false,
                false,
            );
            let q_args = qualify_args(&m.args, trait_path);
            let q_ret = {
                let b = ret_of(m);
                qualify_self(&b, trait_path)
            };
            let builder = build_builder(&m.name, &m.ty_params, &q_args, &q_ret, id);
            Result::Ok(MethodPair { is_static: false, stub, builder })
        },
    }
}

/// What is generated for one extern-block function: the builder on the
/// mock struct and the free forwarding function, which is emitted
/// `unsafe` and always reaches the engine through the static-mock
/// table. Types are taken as declared; an extern function has no
/// `Self` to rewrite.
pub fn generate_foreign_fn(m: &MethodSig, id: usize) -> (r: Result<MethodPair, GenError>)
    ensures
        match r {
            Result::Ok(p) => spec_args_named(m@.args) && p@ == (SpecMethodPair {
                is_static: true,
                stub: spec_stub_method(
                    m@.name,
                    m@.ty_params,
                    Option::None,
                    m@.args,
                    spec_ret_of(m@),
                    id,
                    true,
                    true,
                ),
                builder: spec_builder_method(m@.name, m@.ty_params, m@.args, spec_ret_of(m@), id),
            }),
            Result::Err(e) => !spec_args_named(m@.args) && e == GenError::Unsupported(
                UnsupportedKind::NonIdentParam,
            ),
        },
{
    if !args_named(&m.args) {
        return Result::Err(GenError::Unsupported(UnsupportedKind::NonIdentParam));
    }
    let ret = ret_of(m);
    let ret2 = ret.deep_clone();
    let stub = build_stub(&m.name, &m.ty_params, Option::None, &m.args, ret, id, true, true);
    let builder = build_builder(&m.name, &m.ty_params, &m.args, &ret2, id);
    Result::Ok(MethodPair { is_static: true, stub, builder })
}

} // verus!
