//! The mock synthesizer and the generation entry points.
//!
//! From a resolved request this builds the whole output: the mock
//! struct (engine handle, instance id, one zero-size marker per
//! associated type), per-interface builder and forwarding methods, the
//! secondary static mock where an interface has receiver-less methods,
//! the uniform construct-and-name implementation, the debug hook, and
//! the single-interface convenience lookup.

use vstd::prelude::*;

use crate::ast::{
    clone_strings, lemma_segs_view_index, lemma_strings_view_index, lemma_tys_view_index,
    segs_view, strings_view, ty_view, tys_view, PathSeg, QualName, SegArgs, SpecPathSeg,
    SpecQualName, SpecSegArgs, SpecTy, SpecTyPath, Ty, TyPath,
};
use crate::decl::{
    members_view, requests_view, ForeignItem, ForeignMod, GenError, SpecForeignItem,
    SpecTraitMember, SpecTraitRequest, TraitMember, TraitRequest, UnsupportedKind,
};
use crate::gen::{
    builders_view, lemma_builders_view_index, lemma_stubs_view_index, stubs_view,
    BuilderMethodDef, ExternMockOutput, MethodPair, MockImplDef, MockOutput, MockStructDef,
    SpecBuilderMethodDef, SpecExternMockOutput, SpecMockImplDef, SpecMockStructDef,
    SpecStaticSection, SpecStubMethodDef, SpecTraitSection, StaticSection, StubMethodDef,
    TraitSection,
};
use crate::methodgen::{generate_trait_methods, spec_gen_method};
use crate::resolve::{
    resolve_traits, spec_assoc_names, spec_resolution_error, spec_trait_path_of, Descriptor,
    Resolution,
};
use crate::IdCounter;

verus! {

/// The mock struct for a name and the gathered associated types: its
/// generic parameters and its phantom markers are exactly those types.
pub open spec fn spec_mock_struct(name: Seq<char>, assoc: Seq<Seq<char>>) -> SpecMockStructDef {
    SpecMockStructDef { name: name, ty_params: assoc, phantom_markers: assoc }
}

/// The mock type's path with all its parameters applied:
/// `Name<A, B, ...>`.
pub open spec fn spec_struct_path(name: Seq<char>, assoc: Seq<Seq<char>>) -> SpecTyPath {
    SpecTyPath {
        qself: Option::None,
        global: false,
        segments: seq![
            SpecPathSeg {
                name: name,
                args: SpecSegArgs::Angle {
                    lifetimes: Seq::empty(),
                    types: Seq::new(
                        assoc.len(),
                        |i: int|
                            SpecTy::Path(
                                SpecTyPath {
                                    qself: Option::None,
                                    global: false,
                                    segments: seq![
                                        SpecPathSeg { name: assoc[i], args: SpecSegArgs::Plain },
                                    ],
                                },
                            ),
                    ),
                    bindings: Seq::empty(),
                },
            },
        ],
    }
}

/// Parts joined by a separator.
pub open spec fn spec_join(parts: Seq<Seq<char>>, sep: Seq<char>) -> Seq<char>
    decreases parts,
{
    if parts.len() == 0 {
        Seq::empty()
    } else if parts.len() == 1 {
        parts[0]
    } else {
        parts[0] + sep + spec_join(parts.drop_first(), sep)
    }
}

/// Appending one part appends a separator and the part.
pub proof fn lemma_join_snoc(parts: Seq<Seq<char>>, x: Seq<char>, sep: Seq<char>)
    ensures
        spec_join(parts.push(x), sep) == if parts.len() == 0 {
            x
        } else {
            spec_join(parts, sep) + sep + x
        },
    decreases parts,
{
    if parts.len() == 0 {
        assert(parts.push(x).len() == 1);
        assert(parts.push(x)[0] == x);
    } else if parts.len() == 1 {
        reveal_with_fuel(spec_join, 3);
        assert(parts.push(x)[0] == parts[0]);
        assert(parts.push(x).drop_first() =~= parts.drop_first().push(x));
        assert(parts.drop_first().push(x) =~= seq![x]);
        assert(spec_join(parts.push(x), sep) =~= spec_join(parts, sep) + sep + x);
    } else {
        assert(parts.push(x)[0] == parts[0]);
        assert(parts.push(x).drop_first() =~= parts.drop_first().push(x));
        lemma_join_snoc(parts.drop_first(), x, sep);
        assert(spec_join(parts.push(x), sep) =~= spec_join(parts, sep) + sep + x);
    }
}

/// A qualified name rendered as source text: `::`-separated segments,
/// with a leading `::` when the name is global.
pub open spec fn spec_render_name(q: SpecQualName) -> Seq<char> {
    (if q.global {
        "::"@
    } else {
        Seq::<char>::empty()
    }) + spec_join(q.segments, "::"@)
}

/// The mocked-class display name: the rendered interface paths joined
/// by `+`.
pub open spec fn spec_class_name(paths: Seq<SpecQualName>) -> Seq<char> {
    spec_join(Seq::new(paths.len(), |i: int| spec_render_name(paths[i])), "+"@)
}

/// Whether a member is a static (receiver-less) method.
pub open spec fn spec_is_static_method(m: SpecTraitMember) -> bool {
    m matches SpecTraitMember::Method(sig) && sig.receiver is None
}

/// Whether a member is a method with its own generic type parameters.
pub open spec fn spec_is_generic_method(m: SpecTraitMember) -> bool {
    m matches SpecTraitMember::Method(sig) && sig.ty_params.len() > 0
}

/// Whether a member, if it is a method, binds every parameter by a
/// plain identifier.
pub open spec fn spec_member_args_ok(m: SpecTraitMember) -> bool {
    m matches SpecTraitMember::Method(sig) ==> crate::methodgen::spec_args_named(sig.args)
}

/// Whether any interface of the request has a static method.
pub open spec fn spec_has_static(reqs: Seq<SpecTraitRequest>) -> bool {
    exists|i: int, j: int|
        0 <= i < reqs.len() && 0 <= j < reqs[i].decl.members.len() && spec_is_static_method(
            #[trigger] reqs[i].decl.members[j],
        )
}

/// Whether any interface of the request has a generic method.
pub open spec fn spec_has_generic_method(reqs: Seq<SpecTraitRequest>) -> bool {
    exists|i: int, j: int|
        0 <= i < reqs.len() && 0 <= j < reqs[i].decl.members.len() && spec_is_generic_method(
            #[trigger] reqs[i].decl.members[j],
        )
}

/// Whether every method of the request binds its parameters by plain
/// identifiers.
pub open spec fn spec_all_args_ok(reqs: Seq<SpecTraitRequest>) -> bool {
    forall|i: int, j: int|
        0 <= i < reqs.len() && 0 <= j < reqs[i].decl.members.len() ==> spec_member_args_ok(
            #[trigger] reqs[i].decl.members[j],
        )
}

/// What generation rejects: everything resolution rejects, or a method
/// parameter bound by something other than a plain identifier.
pub open spec fn spec_gen_error(reqs: Seq<SpecTraitRequest>) -> Option<GenError> {
    match spec_resolution_error(reqs) {
        Option::Some(e) => Option::Some(e),
        Option::None => if !spec_all_args_ok(reqs) {
            Option::Some(GenError::Unsupported(UnsupportedKind::NonIdentParam))
        } else {
            Option::None
        },
    }
}

/// The forwarding stubs of the instance methods of a member list, in
/// member order.
pub open spec fn spec_inst_stubs(
    ms: Seq<SpecTraitMember>,
    tp: SpecQualName,
    id: usize,
    sp: SpecTyPath,
) -> Seq<SpecStubMethodDef>
    decreases ms,
{
    if ms.len() == 0 {
        Seq::empty()
    } else {
        (match ms[0] {
            SpecTraitMember::Method(m) => if m.receiver is Some {
                seq![spec_gen_method(m, tp, id, sp)->Ok_0.stub]
            } else {
                Seq::empty()
            },
            _ => Seq::empty(),
        }) + spec_inst_stubs(ms.drop_first(), tp, id, sp)
    }
}

/// The expectation builders of the instance methods, in member order.
pub open spec fn spec_inst_builders(
    ms: Seq<SpecTraitMember>,
    tp: SpecQualName,
    id: usize,
    sp: SpecTyPath,
) -> Seq<SpecBuilderMethodDef>
    decreases ms,
{
    if ms.len() == 0 {
        Seq::empty()
    } else {
        (match ms[0] {
            SpecTraitMember::Method(m) => if m.receiver is Some {
                seq![spec_gen_method(m, tp, id, sp)->Ok_0.builder]
            } else {
                Seq::empty()
            },
            _ => Seq::empty(),
        }) + spec_inst_builders(ms.drop_first(), tp, id, sp)
    }
}

/// The forwarding stubs of the static methods, in member order.
pub open spec fn spec_static_stubs(
    ms: Seq<SpecTraitMember>,
    tp: SpecQualName,
    id: usize,
    sp: SpecTyPath,
) -> Seq<SpecStubMethodDef>
    decreases ms,
{
    if ms.len() == 0 {
        Seq::empty()
    } else {
        (match ms[0] {
            SpecTraitMember::Method(m) => if m.receiver is None {
                seq![spec_gen_method(m, tp, id, sp)->Ok_0.stub]
            } else {
                Seq::empty()
            },
            _ => Seq::empty(),
        }) + spec_static_stubs(ms.drop_first(), tp, id, sp)
    }
}

/// The expectation builders of the static methods, in member order.
pub open spec fn spec_static_builders(
    ms: Seq<SpecTraitMember>,
    tp: SpecQualName,
    id: usize,
    sp: SpecTyPath,
) -> Seq<SpecBuilderMethodDef>
    decreases ms,
{
    if ms.len() == 0 {
        Seq::empty()
    } else {
        (match ms[0] {
            SpecTraitMember::Method(m) => if m.receiver is None {
                seq![spec_gen_method(m, tp, id, sp)->Ok_0.builder]
            } else {
                Seq::empty()
            },
            _ => Seq::empty(),
        }) + spec_static_builders(ms.drop_first(), tp, id, sp)
    }
}

/// Appending one member appends its contributions to the four method
/// lists.
pub proof fn lemma_method_lists_snoc(
    s: Seq<SpecTraitMember>,
    x: SpecTraitMember,
    tp: SpecQualName,
    id: usize,
    sp: SpecTyPath,
)
    ensures
        spec_inst_stubs(s.push(x), tp, id, sp) == spec_inst_stubs(s, tp, id, sp) + (match x {
            SpecTraitMember::Method(m) => if m.receiver is Some {
                seq![spec_gen_method(m, tp, id, sp)->Ok_0.stub]
            } else {
                Seq::<SpecStubMethodDef>::empty()
            },
            _ => Seq::<SpecStubMethodDef>::empty(),
        }),
        spec_inst_builders(s.push(x), tp, id, sp) == spec_inst_builders(s, tp, id, sp) + (match x {
            SpecTraitMember::Method(m) => if m.receiver is Some {
                seq![spec_gen_method(m, tp, id, sp)->Ok_0.builder]
            } else {
                Seq::<SpecBuilderMethodDef>::empty()
            },
            _ => Seq::<SpecBuilderMethodDef>::empty(),
        }),
        spec_static_stubs(s.push(x), tp, id, sp) == spec_static_stubs(s, tp, id, sp) + (match x {
            SpecTraitMember::Method(m) => if m.receiver is None {
                seq![spec_gen_method(m, tp, id, sp)->Ok_0.stub]
            } else {
                Seq::<SpecStubMethodDef>::empty()
            },
            _ => Seq::<SpecStubMethodDef>::empty(),
        }),
        spec_static_builders(s.push(x), tp, id, sp) == spec_static_builders(s, tp, id, sp) + (
        match x {
            SpecTraitMember::Method(m) => if m.receiver is None {
                seq![spec_gen_method(m, tp, id, sp)->Ok_0.builder]
            } else {
                Seq::<SpecBuilderMethodDef>::empty()
            },
            _ => Seq::<SpecBuilderMethodDef>::empty(),
        }),
    decreases s,
{
    if s.len() == 0 {
        reveal_with_fuel(spec_inst_stubs, 2);
        reveal_with_fuel(spec_inst_builders, 2);
        reveal_with_fuel(spec_static_stubs, 2);
        reveal_with_fuel(spec_static_builders, 2);
        assert(s.push(x)[0] == x);
        assert(s.push(x).drop_first() =~= Seq::<SpecTraitMember>::empty());
        assert(spec_inst_stubs(s.push(x), tp, id, sp) =~= spec_inst_stubs(s, tp, id, sp) + (
        match x {
            SpecTraitMember::Method(m) => if m.receiver is Some {
                seq![spec_gen_method(m, tp, id, sp)->Ok_0.stub]
            } else {
                Seq::<SpecStubMethodDef>::empty()
            },
            _ => Seq::<SpecStubMethodDef>::empty(),
        }));
        assert(spec_inst_builders(s.push(x), tp, id, sp) =~= spec_inst_builders(s, tp, id, sp) + (
        match x {
            SpecTraitMember::Method(m) => if m.receiver is Some {
                seq![spec_gen_method(m, tp, id, sp)->Ok_0.builder]
            } else {
                Seq::<SpecBuilderMethodDef>::empty()
            },
            _ => Seq::<SpecBuilderMethodDef>::empty(),
        }));
        assert(spec_static_stubs(s.push(x), tp, id, sp) =~= spec_static_stubs(s, tp, id, sp) + (
        match x {
            SpecTraitMember::Method(m) => if m.receiver is None {
                seq![spec_gen_method(m, tp, id, sp)->Ok_0.stub]
            } else {
                Seq::<SpecStubMethodDef>::empty()
            },
            _ => Seq::<SpecStubMethodDef>::empty(),
        }));
        assert(spec_static_builders(s.push(x), tp, id, sp) =~= spec_static_builders(s, tp, id, sp)
            + (match x {
            SpecTraitMember::Method(m) => if m.receiver is None {
                seq![spec_gen_method(m, tp, id, sp)->Ok_0.builder]
            } else {
                Seq::<SpecBuilderMethodDef>::empty()
            },
            _ => Seq::<SpecBuilderMethodDef>::empty(),
        }));
    } else {
        assert(s.push(x)[0] == s[0]);
        assert(s.push(x).drop_first() =~= s.drop_first().push(x));
        lemma_method_lists_snoc(s.drop_first(), x, tp, id, sp);
        assert(spec_inst_stubs(s.push(x), tp, id, sp) =~= spec_inst_stubs(s, tp, id, sp) + (
        match x {
            SpecTraitMember::Method(m) => if m.receiver is Some {
                seq![spec_gen_method(m, tp, id, sp)->Ok_0.stub]
            } else {
                Seq::<SpecStubMethodDef>::empty()
            },
            _ => Seq::<SpecStubMethodDef>::empty(),
        }));
        assert(spec_inst_builders(s.push(x), tp, id, sp) =~= spec_inst_builders(s, tp, id, sp) + (
        match x {
            SpecTraitMember::Method(m) => if m.receiver is Some {
                seq![spec_gen_method(m, tp, id, sp)->Ok_0.builder]
            } else {
                Seq::<SpecBuilderMethodDef>::empty()
            },
            _ => Seq::<SpecBuilderMethodDef>::empty(),
        }));
        assert(spec_static_stubs(s.push(x), tp, id, sp) =~= spec_static_stubs(s, tp, id, sp) + (
        match x {
            SpecTraitMember::Method(m) => if m.receiver is None {
                seq![spec_gen_method(m, tp, id, sp)->Ok_0.stub]
            } else {
                Seq::<SpecStubMethodDef>::empty()
            },
            _ => Seq::<SpecStubMethodDef>::empty(),
        }));
        assert(spec_static_builders(s.push(x), tp, id, sp) =~= spec_static_builders(s, tp, id, sp)
            + (match x {
            SpecTraitMember::Method(m) => if m.receiver is None {
                seq![spec_gen_method(m, tp, id, sp)->Ok_0.builder]
            } else {
                Seq::<SpecBuilderMethodDef>::empty()
            },
            _ => Seq::<SpecBuilderMethodDef>::empty(),
        }));
    }
}

/// What one interface's section must be, for a successful generation.
pub open spec fn spec_section_of(
    req: SpecTraitRequest,
    id: usize,
    mock_name: Seq<char>,
    assoc: Seq<Seq<char>>,
    all_ids: Seq<usize>,
) -> SpecTraitSection {
    let tp = spec_trait_path_of(req);
    let sp = spec_struct_path(mock_name, assoc);
    let static_name = mock_name + "Static"@;
    SpecTraitSection {
        trait_path: tp,
        mock_type_id: id,
        builder_methods: spec_inst_builders(req.decl.members, tp, id, sp),
        stub_methods: spec_inst_stubs(req.decl.members, tp, id, sp),
        static_stub_methods: spec_static_stubs(req.decl.members, tp, id, sp),
        static_part: if exists|j: int|
            0 <= j < req.decl.members.len() && spec_is_static_method(
                #[trigger] req.decl.members[j],
            ) {
            Option::Some(
                SpecStaticSection {
                    mock_struct: spec_mock_struct(static_name, assoc),
                    builder_methods: spec_static_builders(req.decl.members, tp, id, sp),
                    mock_impl: SpecMockImplDef {
                        mock_name: static_name,
                        class_name: static_name,
                        ty_params: assoc,
                        register_ids: all_ids,
                    },
                },
            )
        } else {
            Option::None
        },
    }
}

/// What the whole output must be, for a successful generation.
pub open spec fn spec_output_ok(
    out: crate::gen::SpecMockOutput,
    mock_name: Seq<char>,
    reqs: Seq<SpecTraitRequest>,
    first_id: usize,
    local: bool,
) -> bool {
    let assoc = spec_assoc_names(reqs);
    let all_ids = Seq::new(reqs.len(), |i: int| (first_id + i) as usize);
    &&& out.mock_struct == spec_mock_struct(mock_name, assoc)
    &&& out.assoc_types == assoc
    &&& out.sections.len() == reqs.len()
    &&& forall|i: int|
        0 <= i < reqs.len() ==> out.sections[i] == spec_section_of(
            reqs[i],
            (first_id + i) as usize,
            mock_name,
            assoc,
            all_ids,
        )
    &&& out.mock_impl == (SpecMockImplDef {
        mock_name: mock_name,
        class_name: spec_class_name(Seq::new(reqs.len(), |i: int| spec_trait_path_of(reqs[i]))),
        ty_params: assoc,
        register_ids: Seq::empty(),
    })
    &&& out.has_debug_impl == true
    &&& out.mocked_impl_for == (if local && !spec_has_generic_method(reqs) && !spec_has_static(
        reqs,
    ) {
        Option::Some(spec_trait_path_of(reqs[reqs.len() - 1]))
    } else {
        Option::<SpecQualName>::None
    })
}

/// The mock struct definition for a name and the gathered associated
/// types.
pub fn generate_mock_struct(name: &String, assoc: &Vec<String>) -> (r: MockStructDef)
    ensures
        r@ == spec_mock_struct(name@, strings_view(assoc@)),
{
    MockStructDef {
        name: name.clone(),
        ty_params: clone_strings(assoc),
        phantom_markers: clone_strings(assoc),
    }
}

/// The mock type's path with all its parameters applied.
pub fn make_struct_path(name: &String, assoc: &Vec<String>) -> (r: TyPath)
    ensures
        r@ == spec_struct_path(name@, strings_view(assoc@)),
{
    proof {
        lemma_strings_view_index(assoc@);
    }
    let ghost sassoc = strings_view(assoc@);
    let mut types: Vec<Ty> = Vec::new();
    let mut i: usize = 0;
    while i < assoc.len()
        invariant
            i <= assoc@.len(),
            sassoc == strings_view(assoc@),
            sassoc.len() == assoc@.len(),
            types@.len() == i,
            forall|j: int| 0 <= j < i ==> ty_view(types@[j]) == SpecTy::Path(
                SpecTyPath {
                    qself: Option::None,
                    global: false,
                    segments: seq![SpecPathSeg { name: sassoc[j], args: SpecSegArgs::Plain }],
                },
            ),
        decreases assoc@.len() - i,
    {
        let mut segs: Vec<PathSeg> = Vec::new();
        segs.push(PathSeg { name: assoc[i].clone(), args: SegArgs::Plain });
        proof {
            lemma_segs_view_index(segs@);
            assert(segs_view(segs@) =~= seq![
                SpecPathSeg { name: sassoc[i as int], args: SpecSegArgs::Plain },
            ]);
        }
        let ghost sv = segs_view(segs@);
        let t = Ty::Path(TyPath { qself: Option::None, global: false, segments: segs });
        proof {
            reveal_with_fuel(crate::ast::ty_view, 2);
            reveal_with_fuel(crate::ast::ty_path_view, 2);
            assert(ty_view(t) == SpecTy::Path(
                SpecTyPath { qself: Option::None, global: false, segments: sv },
            ));
        }
        types.push(t);
        i = i + 1;
    }
    let mut outer: Vec<PathSeg> = Vec::new();
    let ghost tys = tys_view(types@);
    proof {
        lemma_tys_view_index(types@);
        assert(tys =~= spec_struct_path(name@, sassoc).segments[0].args->Angle_types);
    }
    outer.push(
        PathSeg {
            name: name.clone(),
            args: SegArgs::Angle { lifetimes: Vec::new(), types, bindings: Vec::new() },
        },
    );
    let r = TyPath { qself: Option::None, global: false, segments: outer };
    proof {
        lemma_segs_view_index(r.segments@);
        assert(crate::ast::lifetimes_view(Seq::empty()) =~= Seq::<
            crate::ast::SpecLifetime,
        >::empty());
        assert(crate::ast::bindings_view(Seq::empty()) =~= Seq::<
            crate::ast::SpecTyBinding,
        >::empty());
        assert(r@.segments =~= spec_struct_path(name@, sassoc).segments);
    }
    r
}

/// A qualified name rendered as source text.
pub fn render_name(q: &QualName) -> (r: String)
    ensures
        r@ == spec_render_name(q@),
{
    proof {
        lemma_strings_view_index(q.segments@);
    }
    let ghost segs = q@.segments;
    let mut out: String = if q.global {
        String::from_str("::")
    } else {
        String::new()
    };
    let ghost lead = out@;
    let mut i: usize = 0;
    while i < q.segments.len()
        invariant
            i <= q.segments@.len(),
            segs == strings_view(q.segments@),
            segs.len() == q.segments@.len(),
            out@ == lead + spec_join(segs.take(i as int), "::"@),
        decreases q.segments@.len() - i,
    {
        proof {
            assert(segs.take(i + 1) =~= segs.take(i as int).push(segs[i as int]));
            lemma_join_snoc(segs.take(i as int), segs[i as int], "::"@);
        }
        if i > 0 {
            out.append("::");
        }
        out.append(q.segments[i].as_str());
        proof {
            if i == 0 {
                assert(spec_join(segs.take(0), "::"@) =~= Seq::<char>::empty());
                assert(out@ =~= lead + spec_join(segs.take(1), "::"@));
            } else {
                assert(out@ =~= lead + spec_join(segs.take(i + 1), "::"@));
            }
        }
        i = i + 1;
    }
    proof {
        assert(segs.take(segs.len() as int) =~= segs);
        if q.segments@.len() == 0 {
            assert(spec_join(segs, "::"@) =~= Seq::<char>::empty());
            assert(out@ =~= lead + spec_join(segs, "::"@));
        }
    }
    out
}

/// A copy of an id list.
pub fn copy_ids(v: &Vec<usize>) -> (r: Vec<usize>)
    ensures
        r@ == v@,
{
    let mut out: Vec<usize> = Vec::new();
    let mut i: usize = 0;
    while i < v.len()
        invariant
            i <= v@.len(),
            out@ == v@.take(i as int),
        decreases v@.len() - i,
    {
        proof {
            assert(v@.take(i + 1) =~= v@.take(i as int).push(v@[i as int]));
        }
        out.push(v[i]);
        i = i + 1;
    }
    proof {
        assert(v@.take(v@.len() as int) =~= v@);
    }
    out
}

/// The `+`-joined display name of the implemented interfaces.
pub fn render_class_name(descriptors: &Vec<Descriptor>) -> (r: String)
    ensures
        r@ == spec_class_name(
            Seq::new(descriptors@.len(), |i: int| descriptors@[i]@.trait_path),
        ),
{
    let ghost paths = Seq::new(descriptors@.len(), |i: int| descriptors@[i]@.trait_path);
    let ghost rendered = Seq::new(paths.len(), |i: int| spec_render_name(paths[i]));
    let mut out = String::new();
    let mut i: usize = 0;
    while i < descriptors.len()
        invariant
            i <= descriptors@.len(),
            paths == Seq::new(descriptors@.len(), |k: int| descriptors@[k]@.trait_path),
            rendered == Seq::new(paths.len(), |k: int| spec_render_name(paths[k])),
            rendered.len() == descriptors@.len(),
            out@ == spec_join(rendered.take(i as int), "+"@),
        decreases descriptors@.len() - i,
    {
        proof {
            assert(rendered.take(i + 1) =~= rendered.take(i as int).push(rendered[i as int]));
            lemma_join_snoc(rendered.take(i as int), rendered[i as int], "+"@);
        }
        if i > 0 {
            out.append("+");
        }
        let part = render_name(&descriptors[i].trait_path);
        out.append(part.as_str());
        proof {
            if i == 0 {
                assert(spec_join(rendered.take(0), "+"@) =~= Seq::<char>::empty());
                assert(out@ =~= spec_join(rendered.take(1), "+"@));
            } else {
                assert(out@ =~= spec_join(rendered.take(i + 1), "+"@));
            }
        }
        i = i + 1;
    }
    proof {
        assert(rendered.take(rendered.len() as int) =~= rendered);
        if descriptors@.len() == 0 {
            assert(out@ =~= spec_join(rendered, "+"@));
        }
    }
    out
}

/// Generate the mock and every implementation for a resolved list of
/// interfaces, bases first and the primary interface last. `local`
/// generations (interface-annotation mode) additionally get the
/// interface-to-mock lookup, unless a method is generic or static.
#[verifier::rlimit(60)]
#[verifier::loop_isolation(false)]
pub fn generate_mock_for_traits(
    mock_name: &String,
    reqs: &Vec<TraitRequest>,
    local: bool,
    counter: &mut IdCounter,
) -> (r: Result<MockOutput, GenError>)
    requires
        old(counter).next + reqs@.len() <= usize::MAX,
        local ==> reqs@.len() > 0,
    ensures
        match r {
            Result::Ok(out) => {
                &&& spec_gen_error(requests_view(reqs@)) is None
                &&& final(counter).next == old(counter).next + reqs@.len()
                &&& spec_output_ok(
                    out@,
                    mock_name@,
                    requests_view(reqs@),
                    old(counter).next,
                    local,
                )
            },
            Result::Err(e) => {
                &&& spec_gen_error(requests_view(reqs@)) == Option::Some(e)
                &&& final(counter).next == (if spec_resolution_error(requests_view(reqs@)) is Some {
                    old(counter).next as int
                } else {
                    old(counter).next + reqs@.len()
                })
            },
        },
{
    let ghost rv = requests_view(reqs@);
    proof {
        crate::decl::lemma_requests_view_index(reqs@);
    }
    let resolution = match resolve_traits(reqs, counter) {
        Result::Err(e) => {
            return Result::Err(e);
        },
        Result::Ok(x) => x,
    };
    let Resolution { descriptors, assoc_types } = resolution;
    let ghost first = old(counter).next;
    let ghost assoc_v = spec_assoc_names(rv);
    let ghost sp = spec_struct_path(mock_name@, assoc_v);

    let struct_path = make_struct_path(mock_name, &assoc_types);
    let mock_struct_def = generate_mock_struct(mock_name, &assoc_types);
    let mut static_name = mock_name.clone();
    static_name.append("Static");

    let mut all_ids: Vec<usize> = Vec::new();
    let mut k: usize = 0;
    while k < descriptors.len()
        invariant
            k <= descriptors@.len(),
            all_ids@.len() == k,
            forall|i: int| 0 <= i < k ==> all_ids@[i] == (first + i) as usize,
        decreases descriptors@.len() - k,
    {
        all_ids.push(descriptors[k].mock_type_id);
        k = k + 1;
    }
    let ghost all_ids_v = Seq::new(rv.len(), |i: int| (first + i) as usize);
    proof {
        assert(all_ids@ =~= all_ids_v);
    }

    let mut sections: Vec<TraitSection> = Vec::new();
    let mut any_static = false;
    let mut any_generic = false;
    let mut t: usize = 0;
    while t < descriptors.len()
        invariant
            t <= descriptors@.len(),
            descriptors@.len() == reqs@.len(),
            sections@.len() == t,
            forall|i: int|
                0 <= i < t ==> sections@[i]@ == spec_section_of(
                    rv[i],
                    (first + i) as usize,
                    mock_name@,
                    assoc_v,
                    all_ids_v,
                ),
            forall|i: int, j: int|
                0 <= i < t && 0 <= j < rv[i].decl.members.len() ==> spec_member_args_ok(
                    #[trigger] rv[i].decl.members[j],
                ),
            any_static == (exists|i: int, j: int|
                0 <= i < t && 0 <= j < rv[i].decl.members.len() && spec_is_static_method(
                    #[trigger] rv[i].decl.members[j],
                )),
            any_generic == (exists|i: int, j: int|
                0 <= i < t && 0 <= j < rv[i].decl.members.len() && spec_is_generic_method(
                    #[trigger] rv[i].decl.members[j],
                )),
            static_name@ == mock_name@ + "Static"@,
            counter.next == first + reqs@.len(),
        decreases descriptors@.len() - t,
    {
        let desc = &descriptors[t];
        let ghost sm = rv[t as int].decl.members;
        let ghost tp = spec_trait_path_of(rv[t as int]);
        let ghost id = desc.mock_type_id;
        proof {
            assert(desc@.members == sm);
            assert(desc@.trait_path == tp);
            assert(desc@.mock_type_id == (first + t) as usize);
            crate::decl::lemma_members_view_index(desc.members@);
        }
        let mut inst_stubs: Vec<StubMethodDef> = Vec::new();
        let mut inst_builders: Vec<BuilderMethodDef> = Vec::new();
        let mut static_stubs: Vec<StubMethodDef> = Vec::new();
        let mut static_builders: Vec<BuilderMethodDef> = Vec::new();
        let mut saw_static = false;
        let mut j: usize = 0;
        while j < desc.members.len()
            invariant
                j <= desc.members@.len(),
                members_view(desc.members@) == sm,
                sm.len() == desc.members@.len(),
                stubs_view(inst_stubs@) == spec_inst_stubs(sm.take(j as int), tp, id, sp),
                builders_view(inst_builders@) == spec_inst_builders(sm.take(j as int), tp, id, sp),
                stubs_view(static_stubs@) == spec_static_stubs(sm.take(j as int), tp, id, sp),
                builders_view(static_builders@) == spec_static_builders(
                    sm.take(j as int),
                    tp,
                    id,
                    sp,
                ),
                saw_static == (exists|m: int|
                    0 <= m < j && spec_is_static_method(#[trigger] sm[m])),
                forall|m: int| 0 <= m < j ==> spec_member_args_ok(#[trigger] sm[m]),
            decreases desc.members@.len() - j,
        {
            proof {
                assert(sm.take(j + 1) =~= sm.take(j as int).push(sm[j as int]));
                lemma_method_lists_snoc(sm.take(j as int), sm[j as int], tp, id, sp);
                lemma_stubs_view_index(inst_stubs@);
                lemma_builders_view_index(inst_builders@);
                lemma_stubs_view_index(static_stubs@);
                lemma_builders_view_index(static_builders@);
            }
            match &desc.members[j] {
                TraitMember::Method(m) => {
                    proof {
                        assert(sm[j as int] == SpecTraitMember::Method(m@));
                    }
                    match generate_trait_methods(m, &desc.trait_path, desc.mock_type_id,
                        &struct_path) {
                        Result::Err(e) => {
                            proof {
                                assert(!crate::methodgen::spec_args_named(m@.args));
                                assert(!spec_member_args_ok(rv[t as int].decl.members[j as int]));
                                assert(!spec_all_args_ok(rv));
                                assert(e == GenError::Unsupported(UnsupportedKind::NonIdentParam));
                            }
                            return Result::Err(e);
                        },
                        Result::Ok(pair) => {
                            let MethodPair { is_static, stub, builder } = pair;
                            proof {
                                assert(spec_gen_method(m@, tp, id, sp) is Ok);
                            }
                            if is_static {
                                static_stubs.push(stub);
                                static_builders.push(builder);
                                saw_static = true;
                                proof {
                                    assert(spec_is_static_method(sm[j as int]));
                                    assert(stubs_view(static_stubs@) =~= spec_static_stubs(
                                        sm.take(j + 1),
                                        tp,
                                        id,
                                        sp,
                                    ));
                                    assert(builders_view(static_builders@)
                                        =~= spec_static_builders(sm.take(j + 1), tp, id, sp));
                                    assert(stubs_view(inst_stubs@) =~= spec_inst_stubs(
                                        sm.take(j + 1),
                                        tp,
                                        id,
                                        sp,
                                    ));
                                    assert(builders_view(inst_builders@) =~= spec_inst_builders(
                                        sm.take(j + 1),
                                        tp,
                                        id,
                                        sp,
                                    ));
                                }
                            } else {
                                inst_stubs.push(stub);
                                inst_builders.push(builder);
                                proof {
                                    assert(!spec_is_static_method(sm[j as int]));
                                    assert(stubs_view(inst_stubs@) =~= spec_inst_stubs(
                                        sm.take(j + 1),
                                        tp,
                                        id,
                                        sp,
                                    ));
                                    assert(builders_view(inst_builders@) =~= spec_inst_builders(
                                        sm.take(j + 1),
                                        tp,
                                        id,
                                        sp,
                                    ));
                                    assert(stubs_view(static_stubs@) =~= spec_static_stubs(
                                        sm.take(j + 1),
                                        tp,
                                        id,
                                        sp,
                                    ));
                                    assert(builders_view(static_builders@)
                                        =~= spec_static_builders(sm.take(j + 1), tp, id, sp));
                                }
                            }
                        },
                    }
                },
                _ => {
                    proof {
                        assert(!(sm[j as int] matches SpecTraitMember::Method(_)));
                        assert(stubs_view(inst_stubs@) =~= spec_inst_stubs(
                            sm.take(j + 1),
                            tp,
                            id,
                            sp,
                        ));
                        assert(builders_view(inst_builders@) =~= spec_inst_builders(
                            sm.take(j + 1),
                            tp,
                            id,
                            sp,
                        ));
                        assert(stubs_view(static_stubs@) =~= spec_static_stubs(
                            sm.take(j + 1),
                            tp,
                            id,
                            sp,
                        ));
                        assert(builders_view(static_builders@) =~= spec_static_builders(
                            sm.take(j + 1),
                            tp,
                            id,
                            sp,
                        ));
                    }
                },
            }
            j = j + 1;
        }
        proof {
            assert(sm.take(sm.len() as int) =~= sm);
        }
        let is_generic = has_generic_member(&desc.members);
        let static_part: Option<StaticSection> = if saw_static {
            Option::Some(
                StaticSection {
                    mock_struct: generate_mock_struct(&static_name, &assoc_types),
                    builder_methods: static_builders,
                    mock_impl: MockImplDef {
                        mock_name: static_name.clone(),
                        class_name: static_name.clone(),
                        ty_params: clone_strings(&assoc_types),
                        register_ids: copy_ids(&all_ids),
                    },
                },
            )
        } else {
            Option::None
        };
        let section = TraitSection {
            trait_path: desc.trait_path.deep_clone(),
            mock_type_id: desc.mock_type_id,
            builder_methods: inst_builders,
            stub_methods: inst_stubs,
            static_stub_methods: static_stubs,
            static_part,
        };
        proof {
            assert(section@ == spec_section_of(
                rv[t as int],
                (first + t) as usize,
                mock_name@,
                assoc_v,
                all_ids_v,
            ));
        }
        sections.push(section);
        any_static = any_static || saw_static;
        any_generic = any_generic || is_generic;
        t = t + 1;
    }

    let class_name = render_class_name(&descriptors);
    proof {
        assert(Seq::new(descriptors@.len(), |i: int| descriptors@[i]@.trait_path) =~= Seq::new(
            rv.len(),
            |i: int| spec_trait_path_of(rv[i]),
        ));
        assert(any_static == spec_has_static(rv));
        assert(any_generic == spec_has_generic_method(rv));
        assert(spec_all_args_ok(rv));
    }
    let mocked_impl_for: Option<QualName> = if local && !any_generic && !any_static {
        Option::Some(descriptors[descriptors.len() - 1].trait_path.deep_clone())
    } else {
        Option::None
    };
    let impl_ty_params = clone_strings(&assoc_types);
    let out = MockOutput {
        mock_struct: mock_struct_def,
        assoc_types,
        sections,
        mock_impl: MockImplDef {
            mock_name: mock_name.clone(),
            class_name,
            ty_params: impl_ty_params,
            register_ids: Vec::new(),
        },
        has_debug_impl: true,
        mocked_impl_for,
    };
    proof {
        assert(out@.mock_impl.register_ids =~= Seq::<usize>::empty());
    }
    Result::Ok(out)
}

/// Whether any method of this member list has its own generic type
/// parameters.
fn has_generic_member(ms: &Vec<TraitMember>) -> (r: bool)
    ensures
        r == (exists|j: int|
            0 <= j < members_view(ms@).len() && spec_is_generic_method(
                #[trigger] members_view(ms@)[j],
            )),
{
    proof {
        crate::decl::lemma_members_view_index(ms@);
    }
    let mut j: usize = 0;
    while j < ms.len()
        invariant
            j <= ms@.len(),
            forall|m: int| 0 <= m < j ==> !spec_is_generic_method(#[trigger] members_view(ms@)[m]),
        decreases ms@.len() - j,
    {
        match &ms[j] {
            TraitMember::Method(m) => {
                if m.ty_params.len() > 0 {
                    proof {
                        lemma_strings_view_index(m.ty_params@);
                        assert(spec_is_generic_method(members_view(ms@)[j as int]));
                    }
                    return true;
                }
                proof {
                    lemma_strings_view_index(m.ty_params@);
                }
            },
            _ => {},
        }
        j = j + 1;
    }
    false
}

/// Explicit-list generation: a mock with a caller-chosen name for a
/// list of interface definitions. The original declarations are never
/// echoed and no interface-to-mock lookup is produced.
pub fn mock_impl(mock_name: &String, reqs: &Vec<TraitRequest>, counter: &mut IdCounter) -> (r:
    Result<MockOutput, GenError>)
    requires
        old(counter).next + reqs@.len() <= usize::MAX,
    ensures
        match r {
            Result::Ok(out) => {
                &&& spec_gen_error(requests_view(reqs@)) is None
                &&& final(counter).next == old(counter).next + reqs@.len()
                &&& spec_output_ok(
                    out@,
                    mock_name@,
                    requests_view(reqs@),
                    old(counter).next,
                    false,
                )
            },
            Result::Err(e) => {
                &&& spec_gen_error(requests_view(reqs@)) == Option::Some(e)
                &&& final(counter).next == (if spec_resolution_error(requests_view(reqs@)) is Some {
                    old(counter).next as int
                } else {
                    old(counter).next + reqs@.len()
                })
            },
        },
{
    generate_mock_for_traits(mock_name, reqs, false, counter)
}

/// The first problem of an extern block, in item order: a static item,
/// or a function parameter not bound by a plain identifier.
pub open spec fn spec_extern_issue(items: Seq<SpecForeignItem>) -> Option<GenError>
    decreases items,
{
    if items.len() == 0 {
        Option::None
    } else {
        match items[0] {
            SpecForeignItem::StaticItem => Option::Some(
                GenError::Unsupported(UnsupportedKind::ExternStatic),
            ),
            SpecForeignItem::Fn(m) => if !crate::methodgen::spec_args_named(m.args) {
                Option::Some(GenError::Unsupported(UnsupportedKind::NonIdentParam))
            } else {
                spec_extern_issue(items.drop_first())
            },
        }
    }
}

/// The free forwarding functions of an extern block, in item order.
pub open spec fn spec_foreign_stubs(items: Seq<SpecForeignItem>, id: usize) -> Seq<
    SpecStubMethodDef,
>
    decreases items,
{
    if items.len() == 0 {
        Seq::empty()
    } else {
        (match items[0] {
            SpecForeignItem::Fn(m) => seq![
                crate::methodgen::spec_stub_method(
                    m.name,
                    m.ty_params,
                    Option::None,
                    m.args,
                    crate::methodgen::spec_ret_of(m),
                    id,
                    true,
                    true,
                ),
            ],
            SpecForeignItem::StaticItem => Seq::empty(),
        }) + spec_foreign_stubs(items.drop_first(), id)
    }
}

/// The expectation builders of an extern block, in item order.
pub open spec fn spec_foreign_builders(items: Seq<SpecForeignItem>, id: usize) -> Seq<
    SpecBuilderMethodDef,
>
    decreases items,
{
    if items.len() == 0 {
        Seq::empty()
    } else {
        (match items[0] {
            SpecForeignItem::Fn(m) => seq![
                crate::methodgen::spec_builder_method(
                    m.name,
                    m.ty_params,
                    m.args,
                    crate::methodgen::spec_ret_of(m),
                    id,
                ),
            ],
            SpecForeignItem::StaticItem => Seq::empty(),
        }) + spec_foreign_builders(items.drop_first(), id)
    }
}

/// Appending one item appends its contributions to both lists.
pub proof fn lemma_foreign_lists_snoc(s: Seq<SpecForeignItem>, x: SpecForeignItem, id: usize)
    ensures
        spec_foreign_stubs(s.push(x), id) == spec_foreign_stubs(s, id) + (match x {
            SpecForeignItem::Fn(m) => seq![
                crate::methodgen::spec_stub_method(
                    m.name,
                    m.ty_params,
                    Option::None,
                    m.args,
                    crate::methodgen::spec_ret_of(m),
                    id,
                    true,
                    true,
                ),
            ],
            SpecForeignItem::StaticItem => Seq::<SpecStubMethodDef>::empty(),
        }),
        spec_foreign_builders(s.push(x), id) == spec_foreign_builders(s, id) + (match x {
            SpecForeignItem::Fn(m) => seq![
                crate::methodgen::spec_builder_method(
                    m.name,
                    m.ty_params,
                    m.args,
                    crate::methodgen::spec_ret_of(m),
                    id,
                ),
            ],
            SpecForeignItem::StaticItem => Seq::<SpecBuilderMethodDef>::empty(),
        }),
    decreases s,
{
    if s.len() == 0 {
        reveal_with_fuel(spec_foreign_stubs, 2);
        reveal_with_fuel(spec_foreign_builders, 2);
        assert(s.push(x)[0] == x);
        assert(s.push(x).drop_first() =~= Seq::<SpecForeignItem>::empty());
        assert(spec_foreign_stubs(s.push(x), id) =~= spec_foreign_stubs(s, id) + (match x {
            SpecForeignItem::Fn(m) => seq![
                crate::methodgen::spec_stub_method(
                    m.name,
                    m.ty_params,
                    Option::None,
                    m.args,
                    crate::methodgen::spec_ret_of(m),
                    id,
                    true,
                    true,
                ),
            ],
            SpecForeignItem::StaticItem => Seq::<SpecStubMethodDef>::empty(),
        }));
        assert(spec_foreign_builders(s.push(x), id) =~= spec_foreign_builders(s, id) + (match x {
            SpecForeignItem::Fn(m) => seq![
                crate::methodgen::spec_builder_method(
                    m.name,
                    m.ty_params,
                    m.args,
                    crate::methodgen::spec_ret_of(m),
                    id,
                ),
            ],
            SpecForeignItem::StaticItem => Seq::<SpecBuilderMethodDef>::empty(),
        }));
    } else {
        assert(s.push(x)[0] == s[0]);
        assert(s.push(x).drop_first() =~= s.drop_first().push(x));
        lemma_foreign_lists_snoc(s.drop_first(), x, id);
        assert(spec_foreign_stubs(s.push(x), id) =~= spec_foreign_stubs(s, id) + (match x {
            SpecForeignItem::Fn(m) => seq![
                crate::methodgen::spec_stub_method(
                    m.name,
                    m.ty_params,
                    Option::None,
                    m.args,
                    crate::methodgen::spec_ret_of(m),
                    id,
                    true,
                    true,
                ),
            ],
            SpecForeignItem::StaticItem => Seq::<SpecStubMethodDef>::empty(),
        }));
        assert(spec_foreign_builders(s.push(x), id) =~= spec_foreign_builders(s, id) + (match x {
            SpecForeignItem::Fn(m) => seq![
                crate::methodgen::spec_builder_method(
                    m.name,
                    m.ty_params,
                    m.args,
                    crate::methodgen::spec_ret_of(m),
                    id,
                ),
            ],
            SpecForeignItem::StaticItem => Seq::<SpecBuilderMethodDef>::empty(),
        }));
    }
}

/// Foreign-mode generation: one fresh id for the whole block (consumed
/// even when an item is rejected), a minimal mock struct carrying only
/// its instance id, the registering construct-and-name implementation
/// (whose drop counterpart deregisters the same id), one builder per
/// function on the mock struct, and one free forwarding function per
/// function, reached through the static-mock table.
#[verifier::loop_isolation(false)]
pub fn generate_extern_mock(fm: &ForeignMod, mock_name: &String, counter: &mut IdCounter) -> (r:
    Result<ExternMockOutput, GenError>)
    requires
        old(counter).next < usize::MAX,
    ensures
        final(counter).next == old(counter).next + 1,
        match r {
            Result::Ok(out) => spec_extern_issue(fm@) is None && out@ == (SpecExternMockOutput {
                mock_name: mock_name@,
                mock_type_id: old(counter).next,
                builder_methods: spec_foreign_builders(fm@, old(counter).next),
                stub_fns: spec_foreign_stubs(fm@, old(counter).next),
                mock_impl: SpecMockImplDef {
                    mock_name: mock_name@,
                    class_name: mock_name@,
                    ty_params: Seq::empty(),
                    register_ids: seq![old(counter).next],
                },
            }),
            Result::Err(e) => spec_extern_issue(fm@) == Option::Some(e),
        },
{
    let id = counter.fresh_id();
    let ghost items = fm@;
    proof {
        crate::decl::lemma_foreign_view_index(fm.items@);
    }
    let mut stub_fns: Vec<StubMethodDef> = Vec::new();
    let mut builder_methods: Vec<BuilderMethodDef> = Vec::new();
    let mut j: usize = 0;
    while j < fm.items.len()
        invariant
            j <= fm.items@.len(),
            items.len() == fm.items@.len(),
            stubs_view(stub_fns@) == spec_foreign_stubs(items.take(j as int), id),
            builders_view(builder_methods@) == spec_foreign_builders(items.take(j as int), id),
            forall|k: int|
                0 <= k < j ==> match #[trigger] items[k] {
                    SpecForeignItem::StaticItem => false,
                    SpecForeignItem::Fn(m) => crate::methodgen::spec_args_named(m.args),
                },
        decreases fm.items@.len() - j,
    {
        let ghost suffix = items.subrange(j as int, items.len() as int);
        proof {
            assert(items.take(j + 1) =~= items.take(j as int).push(items[j as int]));
            lemma_foreign_lists_snoc(items.take(j as int), items[j as int], id);
            lemma_stubs_view_index(stub_fns@);
            lemma_builders_view_index(builder_methods@);
        }
        match &fm.items[j] {
            ForeignItem::StaticItem => {
                proof {
                    lemma_extern_issue_prefix(items, j as int);
                }
                return Result::Err(GenError::Unsupported(UnsupportedKind::ExternStatic));
            },
            ForeignItem::Fn(m) => {
                match crate::methodgen::generate_foreign_fn(m, id) {
                    Result::Err(e) => {
                        proof {
                            lemma_extern_issue_prefix(items, j as int);
                        }
                        return Result::Err(e);
                    },
                    Result::Ok(pair) => {
                        let MethodPair { is_static: _is_static, stub, builder } = pair;
                        stub_fns.push(stub);
                        builder_methods.push(builder);
                        proof {
                            assert(stubs_view(stub_fns@) =~= spec_foreign_stubs(
                                items.take(j + 1),
                                id,
                            ));
                            assert(builders_view(builder_methods@) =~= spec_foreign_builders(
                                items.take(j + 1),
                                id,
                            ));
                        }
                    },
                }
            },
        }
        j = j + 1;
    }
    proof {
        assert(items.take(items.len() as int) =~= items);
        lemma_extern_issue_unroll(items);
    }
    let mut register_ids: Vec<usize> = Vec::new();
    register_ids.push(id);
    let r = ExternMockOutput {
        mock_name: mock_name.clone(),
        mock_type_id: id,
        builder_methods,
        stub_fns,
        mock_impl: MockImplDef {
            mock_name: mock_name.clone(),
            class_name: mock_name.clone(),
            ty_params: Vec::new(),
            register_ids,
        },
    };
    proof {
        assert(r@.mock_impl.ty_params =~= Seq::<Seq<char>>::empty());
        assert(r@.mock_impl.register_ids =~= seq![id]);
    }
    Result::Ok(r)
}

/// A clean prefix followed by a bad item makes the bad item the first
/// problem of the whole list.
proof fn lemma_extern_issue_prefix(items: Seq<SpecForeignItem>, j: int)
    requires
        0 <= j < items.len(),
        forall|k: int|
            0 <= k < j ==> match #[trigger] items[k] {
                SpecForeignItem::StaticItem => false,
                SpecForeignItem::Fn(m) => crate::methodgen::spec_args_named(m.args),
            },
        match items[j] {
            SpecForeignItem::StaticItem => true,
            SpecForeignItem::Fn(m) => !crate::methodgen::spec_args_named(m.args),
        },
    ensures
        spec_extern_issue(items) == (match items[j] {
            SpecForeignItem::StaticItem => Option::Some(
                GenError::Unsupported(UnsupportedKind::ExternStatic),
            ),
            SpecForeignItem::Fn(_m) => Option::Some(
                GenError::Unsupported(UnsupportedKind::NonIdentParam),
            ),
        }),
    decreases j,
{
    if j == 0 {
    } else {
        assert(forall|k: int|
            0 <= k < items.drop_first().len() ==> items.drop_first()[k] == items[k + 1]);
        assert(items.drop_first()[j - 1] == items[j]);
        lemma_extern_issue_prefix(items.drop_first(), j - 1);
    }
}

/// A list whose every prefix step is clean has no problem.
proof fn lemma_extern_issue_unroll(items: Seq<SpecForeignItem>)
    requires
        forall|k: int|
            0 <= k < items.len() ==> match #[trigger] items[k] {
                SpecForeignItem::StaticItem => false,
                SpecForeignItem::Fn(m) => crate::methodgen::spec_args_named(m.args),
            },
    ensures
        spec_extern_issue(items) is None,
    decreases items,
{
    if items.len() > 0 {
        assert(forall|k: int|
            0 <= k < items.drop_first().len() ==> items.drop_first()[k] == items[k + 1]);
        lemma_extern_issue_unroll(items.drop_first());
    }
}

/// The item under the annotation: an interface declaration, an extern
/// block, or something else (rejected).
#[derive(Debug, PartialEq, Eq)]
pub enum InputItem {
    TraitItem(crate::decl::TraitDecl),
    ForeignBlock(ForeignMod),
    OtherItem,
}

pub enum SpecInputItem {
    TraitItem(crate::decl::SpecTraitDecl),
    ForeignBlock(Seq<SpecForeignItem>),
    OtherItem,
}

impl View for InputItem {
    type V = SpecInputItem;

    open spec fn view(&self) -> SpecInputItem {
        match self {
            InputItem::TraitItem(d) => SpecInputItem::TraitItem(d@),
            InputItem::ForeignBlock(f) => SpecInputItem::ForeignBlock(f@),
            InputItem::OtherItem => SpecInputItem::OtherItem,
        }
    }
}

/// One entry of the caller-supplied mapping from partially-qualified
/// base references to fully-qualified paths.
#[derive(Debug, PartialEq, Eq)]
pub struct RefMapping {
    pub from: QualName,
    pub to: QualName,
}

pub struct SpecRefMapping {
    pub from: SpecQualName,
    pub to: SpecQualName,
}

impl View for RefMapping {
    type V = SpecRefMapping;

    open spec fn view(&self) -> SpecRefMapping {
        SpecRefMapping { from: self.from@, to: self.to@ }
    }
}

pub open spec fn refs_view(s: Seq<RefMapping>) -> Seq<SpecRefMapping> {
    s.map_values(|x: RefMapping| x@)
}

/// The views of a mapping list are the list of views, pointwise.
pub broadcast proof fn lemma_refs_view_index(s: Seq<RefMapping>)
    ensures
        (#[trigger] refs_view(s)).len() == s.len(),
        forall|i: int| 0 <= i < s.len() ==> refs_view(s)[i] == s[i]@,
{
}

/// The configuration of an interface-annotation generation.
#[derive(Debug, PartialEq, Eq)]
pub struct MockOptions {
    /// overrides the generated mock identifier
    pub mock_name: Option<String>,
    /// partial-to-full path mapping for unqualified base references
    pub refs: Vec<RefMapping>,
    /// where this interface is registered for later lookups
    pub registration_path: Option<QualName>,
}

/// What an interface-annotation generation produced.
#[derive(Debug, PartialEq, Eq)]
pub enum MockGenerated {
    Traits(MockOutput),
    Extern(ExternMockOutput),
}

/// The mapped path of a base reference, if the mapping lists it.
pub open spec fn spec_refs_lookup(refs: Seq<SpecRefMapping>, q: SpecQualName) -> Option<
    SpecQualName,
>
    decreases refs,
{
    if refs.len() == 0 {
        Option::None
    } else if refs[0].from == q {
        Option::Some(refs[0].to)
    } else {
        spec_refs_lookup(refs.drop_first(), q)
    }
}

/// A reference path with its final segment removed: the module path
/// its members are referenced under.
pub open spec fn spec_parent_of(q: SpecQualName) -> SpecQualName {
    SpecQualName {
        global: q.global,
        segments: if q.segments.len() > 0 {
            q.segments.drop_last()
        } else {
            Seq::empty()
        },
    }
}

/// The base-interface requests resolved from the primary declaration's
/// bounds: each bound must be a plain supertrait reference, its path
/// fully qualified or mapped, and the full path must be registered.
pub open spec fn spec_base_requests(
    bounds: Seq<crate::decl::SpecTraitBound>,
    refs: Seq<SpecRefMapping>,
    reg: Map<SpecQualName, crate::decl::SpecTraitDecl>,
) -> Result<Seq<SpecTraitRequest>, GenError>
    decreases bounds,
{
    if bounds.len() == 0 {
        Result::Ok(Seq::empty())
    } else {
        match bounds[0] {
            crate::decl::SpecTraitBound::Lifetime => Result::Err(
                GenError::Unsupported(UnsupportedKind::LifetimeBound),
            ),
            crate::decl::SpecTraitBound::TraitRef { path, .. } => {
                let full = if path.global {
                    Option::Some(path)
                } else {
                    spec_refs_lookup(refs, path)
                };
                match full {
                    Option::None => Result::Err(
                        GenError::UnresolvedBase(crate::decl::BaseIssue::NoPathMapping),
                    ),
                    Option::Some(fp) => if !reg.contains_key(fp) {
                        Result::Err(
                            GenError::UnresolvedBase(crate::decl::BaseIssue::NotRegistered),
                        )
                    } else {
                        match spec_base_requests(bounds.drop_first(), refs, reg) {
                            Result::Err(e) => Result::Err(e),
                            Result::Ok(rest) => Result::Ok(
                                seq![
                                    SpecTraitRequest {
                                        mod_path: spec_parent_of(path),
                                        decl: reg[fp],
                                    },
                                ] + rest,
                            ),
                        }
                    },
                }
            },
        }
    }
}

/// The mapped path of a base reference, if the mapping lists it.
fn refs_lookup(refs: &Vec<RefMapping>, q: &QualName) -> (r: Option<QualName>)
    ensures
        match r {
            Option::Some(p) => spec_refs_lookup(refs_view(refs@), q@) == Option::Some(p@),
            Option::None => spec_refs_lookup(refs_view(refs@), q@) is None,
        },
{
    proof {
        lemma_refs_view_index(refs@);
    }
    let ghost rv = refs_view(refs@);
    proof {
        assert(rv.subrange(0, rv.len() as int) =~= rv);
    }
    let mut i: usize = 0;
    while i < refs.len()
        invariant
            i <= refs@.len(),
            rv == refs_view(refs@),
            rv.len() == refs@.len(),
            spec_refs_lookup(rv, q@) == spec_refs_lookup(
                rv.subrange(i as int, rv.len() as int),
                q@,
            ),
        decreases refs@.len() - i,
    {
        proof {
            assert(rv.subrange(i as int, rv.len() as int)[0] == rv[i as int]);
            assert(rv.subrange(i as int, rv.len() as int).drop_first() =~= rv.subrange(
                i + 1,
                rv.len() as int,
            ));
        }
        if refs[i].from.eq_name(q) {
            return Option::Some(refs[i].to.deep_clone());
        }
        i = i + 1;
    }
    proof {
        assert(rv.subrange(rv.len() as int, rv.len() as int) =~= Seq::<SpecRefMapping>::empty());
    }
    Option::None
}

/// Resolve the primary declaration's bounds to base-interface
/// requests; see `spec_base_requests`.
#[verifier::loop_isolation(false)]
fn resolve_bases(
    bounds: &Vec<crate::decl::TraitBound>,
    refs: &Vec<RefMapping>,
    registry: &crate::registry::Registry,
) -> (r: Result<Vec<TraitRequest>, GenError>)
    ensures
        match r {
            Result::Ok(v) => spec_base_requests(
                crate::decl::bounds_view(bounds@),
                refs_view(refs@),
                registry@,
            ) == Result::<Seq<SpecTraitRequest>, GenError>::Ok(requests_view(v@)) && v@.len()
                == bounds@.len(),
            Result::Err(e) => spec_base_requests(
                crate::decl::bounds_view(bounds@),
                refs_view(refs@),
                registry@,
            ) == Result::<Seq<SpecTraitRequest>, GenError>::Err(e),
        },
{
    proof {
        crate::decl::lemma_bounds_view_index(bounds@);
    }
    let ghost bv = crate::decl::bounds_view(bounds@);
    let ghost rv = refs_view(refs@);
    let mut out: Vec<TraitRequest> = Vec::new();
    proof {
        assert(bv.subrange(0, bv.len() as int) =~= bv);
        crate::decl::lemma_requests_view_index(out@);
        assert(requests_view(out@) =~= Seq::<SpecTraitRequest>::empty());
        if spec_base_requests(bv, rv, registry@) is Ok {
            assert(requests_view(out@) + spec_base_requests(bv, rv, registry@)->Ok_0
                =~= spec_base_requests(bv, rv, registry@)->Ok_0);
        }
    }
    let mut i: usize = 0;
    while i < bounds.len()
        invariant
            i <= bounds@.len(),
            out@.len() == i,
            spec_base_requests(bv, rv, registry@) == (match spec_base_requests(
                bv.subrange(i as int, bv.len() as int),
                rv,
                registry@,
            ) {
                Result::Ok(rest) => Result::<Seq<SpecTraitRequest>, GenError>::Ok(
                    requests_view(out@) + rest,
                ),
                Result::Err(e) => Result::<Seq<SpecTraitRequest>, GenError>::Err(e),
            }),
        decreases bounds@.len() - i,
    {
        let ghost suffix = bv.subrange(i as int, bv.len() as int);
        proof {
            crate::decl::lemma_requests_view_index(out@);
            assert(suffix[0] == bv[i as int]);
            assert(suffix.drop_first() =~= bv.subrange(i + 1, bv.len() as int));
        }
        match &bounds[i] {
            crate::decl::TraitBound::Lifetime => {
                return Result::Err(GenError::Unsupported(UnsupportedKind::LifetimeBound));
            },
            crate::decl::TraitBound::TraitRef { path, modifier_default: _m, has_lifetimes: _h
            } => {
                let full: QualName = if path.global {
                    path.deep_clone()
                } else {
                    match refs_lookup(refs, path) {
                        Option::None => {
                            return Result::Err(
                                GenError::UnresolvedBase(crate::decl::BaseIssue::NoPathMapping),
                            );
                        },
                        Option::Some(p) => p,
                    }
                };
                match registry.lookup(&full) {
                    Option::None => {
                        return Result::Err(
                            GenError::UnresolvedBase(crate::decl::BaseIssue::NotRegistered),
                        );
                    },
                    Option::Some(decl) => {
                        let mut segments = crate::ast::clone_strings(&path.segments);
                        if segments.len() > 0 {
                            let _last = segments.pop();
                        }
                        let mod_path = QualName { global: path.global, segments };
                        proof {
                            lemma_strings_view_index(path.segments@);
                            lemma_strings_view_index(mod_path.segments@);
                            if path.segments@.len() > 0 {
                                assert(strings_view(mod_path.segments@) =~= path@
                                    .segments.drop_last());
                            } else {
                                assert(strings_view(mod_path.segments@) =~= Seq::<
                                    Seq<char>,
                                >::empty());
                            }
                            assert(mod_path@ == spec_parent_of(path@));
                        }
                        let ghost prev = requests_view(out@);
                        out.push(TraitRequest { mod_path, decl });
                        proof {
                            crate::decl::lemma_requests_view_index(out@);
                            assert(requests_view(out@) =~= prev.push(
                                SpecTraitRequest {
                                    mod_path: spec_parent_of(path@),
                                    decl: registry@[full@],
                                },
                            ));
                            assert(prev.push(
                                SpecTraitRequest {
                                    mod_path: spec_parent_of(path@),
                                    decl: registry@[full@],
                                },
                            ) + spec_base_requests(suffix.drop_first(), rv, registry@)->Ok_0
                                =~= prev + (seq![
                                SpecTraitRequest {
                                    mod_path: spec_parent_of(path@),
                                    decl: registry@[full@],
                                },
                            ] + spec_base_requests(suffix.drop_first(), rv, registry@)->Ok_0));
                        }
                    },
                }
            },
        }
        i = i + 1;
    }
    proof {
        assert(bv.subrange(bv.len() as int, bv.len() as int) =~= Seq::<
            crate::decl::SpecTraitBound,
        >::empty());
        assert(requests_view(out@) + Seq::<SpecTraitRequest>::empty() =~= requests_view(out@));
    }
    Result::Ok(out)
}

/// The request list of an interface-annotation generation: the
/// resolved bases in bound order, then the primary interface itself
/// under the local (empty) module path.
pub open spec fn spec_trait_mode_requests(
    d: crate::decl::SpecTraitDecl,
    refs: Seq<SpecRefMapping>,
    reg: Map<SpecQualName, crate::decl::SpecTraitDecl>,
) -> Result<Seq<SpecTraitRequest>, GenError> {
    match spec_base_requests(d.bounds, refs, reg) {
        Result::Err(e) => Result::Err(e),
        Result::Ok(bases) => Result::Ok(
            bases.push(
                SpecTraitRequest {
                    mod_path: SpecQualName { global: false, segments: Seq::empty() },
                    decl: d,
                },
            ),
        ),
    }
}

/// The name the generated mock gets: the explicit override, or the
/// interface name with `Mock` appended.
pub open spec fn spec_mock_ident(d: crate::decl::SpecTraitDecl, explicit: Option<String>) -> Seq<
    char,
> {
    match explicit {
        Option::Some(n) => n@,
        Option::None => d.name + "Mock"@,
    }
}

/// How many ids an annotation-mode generation may consume.
pub open spec fn spec_item_budget(i: SpecInputItem) -> int {
    match i {
        SpecInputItem::TraitItem(d) => d.bounds.len() as int + 1,
        SpecInputItem::ForeignBlock(_items) => 1,
        SpecInputItem::OtherItem => 0,
    }
}

/// Interface-annotation generation. A trait declaration is resolved
/// against the registry, registered under its module path for later
/// requests, and turned into a mock together with its bases; an extern
/// block needs an explicit mock name and goes through foreign-mode
/// generation; anything else is rejected. The returned flag says
/// whether the caller must echo the original declaration in front of
/// the generated code.
#[verifier::loop_isolation(false)]
pub fn mocked_impl(
    item: &InputItem,
    opts: &MockOptions,
    registry: &mut crate::registry::Registry,
    counter: &mut IdCounter,
) -> (r: Result<(MockGenerated, bool), GenError>)
    requires
        old(counter).next + spec_item_budget(item@) <= usize::MAX,
    ensures
        match item@ {
            SpecInputItem::OtherItem => r == Result::<(MockGenerated, bool), GenError>::Err(
                GenError::Unsupported(UnsupportedKind::NotTraitOrExtern),
            ) && final(registry)@ == old(registry)@ && final(counter).next == old(counter).next,
            SpecInputItem::ForeignBlock(items) => {
                &&& final(registry)@ == old(registry)@
                &&& match opts.mock_name {
                    Option::None => r == Result::<(MockGenerated, bool), GenError>::Err(
                        GenError::MissingMockName,
                    ) && final(counter).next == old(counter).next,
                    Option::Some(_n) => {
                        &&& final(counter).next == old(counter).next + 1
                        &&& match r {
                            Result::Ok((g, inc)) => {
                                &&& inc == false
                                &&& spec_extern_issue(items) is None
                                &&& g matches MockGenerated::Extern(out) && out@ == (
                                SpecExternMockOutput {
                                    mock_name: spec_opt_name(opts.mock_name),
                                    mock_type_id: old(counter).next,
                                    builder_methods: spec_foreign_builders(
                                        items,
                                        old(counter).next,
                                    ),
                                    stub_fns: spec_foreign_stubs(items, old(counter).next),
                                    mock_impl: SpecMockImplDef {
                                        mock_name: spec_opt_name(opts.mock_name),
                                        class_name: spec_opt_name(opts.mock_name),
                                        ty_params: Seq::empty(),
                                        register_ids: seq![old(counter).next],
                                    },
                                })
                            },
                            Result::Err(e) => spec_extern_issue(items) == Option::Some(e),
                        }
                    },
                }
            },
            SpecInputItem::TraitItem(d) => {
                let rr = spec_trait_mode_requests(d, refs_view(opts.refs@), old(registry)@);
                &&& final(registry)@ == (match rr {
                    Result::Ok(_reqs) => (match opts.registration_path {
                        Option::Some(ref mp) => old(registry)@.insert(
                            SpecQualName {
                                global: mp@.global,
                                segments: mp@.segments.push(d.name),
                            },
                            d,
                        ),
                        Option::None => old(registry)@,
                    }),
                    Result::Err(_e) => old(registry)@,
                })
                &&& match rr {
                    Result::Err(e0) => r == Result::<(MockGenerated, bool), GenError>::Err(e0)
                        && final(counter).next == old(counter).next,
                    Result::Ok(reqs) => match r {
                        Result::Ok((g, inc)) => {
                            &&& inc == true
                            &&& spec_gen_error(reqs) is None
                            &&& final(counter).next == old(counter).next + reqs.len()
                            &&& g matches MockGenerated::Traits(out) && spec_output_ok(
                                out@,
                                spec_mock_ident(d, opts.mock_name),
                                reqs,
                                old(counter).next,
                                true,
                            )
                        },
                        Result::Err(e) => {
                            &&& spec_gen_error(reqs) == Option::Some(e)
                            &&& final(counter).next == (if spec_resolution_error(reqs) is Some {
                                old(counter).next as int
                            } else {
                                old(counter).next + reqs.len()
                            })
                        },
                    },
                }
            },
        },
{
    match item {
        InputItem::OtherItem => Result::Err(
            GenError::Unsupported(UnsupportedKind::NotTraitOrExtern),
        ),
        InputItem::ForeignBlock(fm) => {
            match &opts.mock_name {
                Option::None => Result::Err(GenError::MissingMockName),
                Option::Some(n) => {
                    match generate_extern_mock(fm, n, counter) {
                        Result::Err(e) => Result::Err(e),
                        Result::Ok(out) => Result::Ok((MockGenerated::Extern(out), false)),
                    }
                },
            }
        },
        InputItem::TraitItem(d) => {
            let bases = match resolve_bases(&d.bounds, &opts.refs, registry) {
                Result::Err(e) => {
                    return Result::Err(e);
                },
                Result::Ok(b) => b,
            };
            match &opts.registration_path {
                Option::Some(mp) => {
                    let mut key = mp.deep_clone();
                    key.segments.push(d.name.clone());
                    proof {
                        lemma_strings_view_index(key.segments@);
                        lemma_strings_view_index(mp.segments@);
                        assert(strings_view(key.segments@) =~= mp@.segments.push(d@.name));
                    }
                    registry.register(key, d.deep_clone());
                },
                Option::None => {},
            }
            let mock_ident: String = match &opts.mock_name {
                Option::Some(n) => n.clone(),
                Option::None => {
                    let mut s = d.name.clone();
                    s.append("Mock");
                    s
                },
            };
            let mut all = bases;
            let primary = TraitRequest {
                mod_path: QualName { global: false, segments: Vec::new() },
                decl: d.deep_clone(),
            };
            proof {
                assert(strings_view(Seq::<String>::empty()) =~= Seq::<Seq<char>>::empty());
            }
            let ghost prev = requests_view(all@);
            all.push(primary);
            proof {
                crate::decl::lemma_requests_view_index(all@);
                assert(requests_view(all@) =~= prev.push(
                    SpecTraitRequest {
                        mod_path: SpecQualName { global: false, segments: Seq::empty() },
                        decl: d@,
                    },
                ));
            }
            match generate_mock_for_traits(&mock_ident, &all, true, counter) {
                Result::Err(e) => Result::Err(e),
                Result::Ok(out) => Result::Ok((MockGenerated::Traits(out), true)),
            }
        },
    }
}

/// The text of an explicit name option (meaningful when present).
pub open spec fn spec_opt_name(o: Option<String>) -> Seq<char> {
    match o {
        Option::Some(n) => n@,
        Option::None => Seq::empty(),
    }
}

} // verus!
