//! Structural model of the generated code.
//!
//! Generation does not produce text here; it produces these artifact
//! descriptions, which carry exactly what the emitted code would say:
//! the mock type's shape, the forwarding (stub) methods that hand calls
//! to the dispatch engine, and the expectation-builder methods test
//! code calls. A flattening step orders them as the emitter writes them.

use vstd::prelude::*;

use crate::ast::{strings_view, ty_view, QualName, SpecQualName, SpecTy, Ty};
use crate::decl::{args_view, Receiver, SpecMethodArg, MethodArg};

verus! {

/// A generic type parameter of a generated impl, with its bound.
#[derive(Debug, PartialEq, Eq)]
pub struct TyParamDecl {
    pub name: String,
    /// bounded by the debuggable capability (`Debug`)
    pub debug_bound: bool,
}

pub struct SpecTyParamDecl {
    pub name: Seq<char>,
    pub debug_bound: bool,
}

impl View for TyParamDecl {
    type V = SpecTyParamDecl;

    open spec fn view(&self) -> SpecTyParamDecl {
        SpecTyParamDecl { name: self.name@, debug_bound: self.debug_bound }
    }
}

pub open spec fn typarams_view(s: Seq<TyParamDecl>) -> Seq<SpecTyParamDecl> {
    s.map_values(|p: TyParamDecl| p@)
}

/// The views of a parameter list are the list of views, pointwise.
pub broadcast proof fn lemma_typarams_view_index(s: Seq<TyParamDecl>)
    ensures
        (#[trigger] typarams_view(s)).len() == s.len(),
        forall|i: int| 0 <= i < s.len() ==> typarams_view(s)[i] == s[i]@,
{
}

/// The generated mock structure: besides the two fixed fields (the
/// shared engine handle and this instance's id) it holds only one
/// zero-size marker per associated type turned generic parameter.
#[derive(Debug, PartialEq, Eq)]
pub struct MockStructDef {
    pub name: String,
    /// generic parameters, one per associated type of the interfaces;
    /// every emitted impl bounds each of them by the debuggable
    /// capability
    pub ty_params: Vec<String>,
    /// the marker components, naming the parameters they keep alive
    pub phantom_markers: Vec<String>,
}

pub struct SpecMockStructDef {
    pub name: Seq<char>,
    pub ty_params: Seq<Seq<char>>,
    pub phantom_markers: Seq<Seq<char>>,
}

impl View for MockStructDef {
    type V = SpecMockStructDef;

    open spec fn view(&self) -> SpecMockStructDef {
        SpecMockStructDef {
            name: self.name@,
            ty_params: strings_view(self.ty_params@),
            phantom_markers: strings_view(self.phantom_markers@),
        }
    }
}

/// A generated forwarding method: it packs (instance id, interface id,
/// method name) into a call descriptor, hands the arguments to the
/// dispatch engine's `verify_n`-argument entry point, and returns the
/// chosen action's result.
#[derive(Debug, PartialEq, Eq)]
pub struct StubMethodDef {
    pub name: String,
    /// the method's own generic parameters, passed through
    pub ty_params: Vec<String>,
    /// `None` for a static stub, which has no receiver to read
    pub receiver: Option<Receiver>,
    /// the parameter list, unchanged from the declaration
    pub args: Vec<MethodArg>,
    pub ret: Ty,
    /// the id of the interface this method belongs to
    pub mock_type_id: usize,
    /// which dispatch entry point is called: one per argument count
    pub verify_n: usize,
    /// whether the engine is found through the static-mock table
    pub via_static_lookup: bool,
    /// extern-block stubs are emitted as `unsafe` functions
    pub is_unsafe: bool,
}

pub struct SpecStubMethodDef {
    pub name: Seq<char>,
    pub ty_params: Seq<Seq<char>>,
    pub receiver: Option<Receiver>,
    pub args: Seq<SpecMethodArg>,
    pub ret: SpecTy,
    pub mock_type_id: usize,
    pub verify_n: usize,
    pub via_static_lookup: bool,
    pub is_unsafe: bool,
}

impl View for StubMethodDef {
    type V = SpecStubMethodDef;

    open spec fn view(&self) -> SpecStubMethodDef {
        SpecStubMethodDef {
            name: self.name@,
            ty_params: strings_view(self.ty_params@),
            receiver: self.receiver,
            args: args_view(self.args@),
            ret: ty_view(self.ret),
            mock_type_id: self.mock_type_id,
            verify_n: self.verify_n,
            via_static_lookup: self.via_static_lookup,
            is_unsafe: self.is_unsafe,
        }
    }
}

/// One matcher parameter of an expectation builder: argument position
/// `index` gets a fresh generic parameter bounded by "matches arguments
/// of type `matched_ty`".
#[derive(Debug, PartialEq, Eq)]
pub struct MatcherParam {
    pub index: usize,
    pub matched_ty: Ty,
}

pub struct SpecMatcherParam {
    pub index: usize,
    pub matched_ty: SpecTy,
}

impl View for MatcherParam {
    type V = SpecMatcherParam;

    open spec fn view(&self) -> SpecMatcherParam {
        SpecMatcherParam { index: self.index, matched_ty: ty_view(self.matched_ty) }
    }
}

pub open spec fn matchers_view(s: Seq<MatcherParam>) -> Seq<SpecMatcherParam> {
    s.map_values(|p: MatcherParam| p@)
}

/// The views of a matcher list are the list of views, pointwise.
pub broadcast proof fn lemma_matchers_view_index(s: Seq<MatcherParam>)
    ensures
        (#[trigger] matchers_view(s)).len() == s.len(),
        forall|i: int| 0 <= i < s.len() ==> matchers_view(s)[i] == s[i]@,
{
}

/// A generated expectation-builder method (`<method>_call`): its body
/// only constructs the `call_match_n`-argument call-matcher from the
/// instance id, the interface id, the stringified method name and the
/// boxed matchers, one per argument.
#[derive(Debug, PartialEq, Eq)]
pub struct BuilderMethodDef {
    /// the builder's own name: the method name with `_call` appended
    pub name: String,
    /// the method name passed to the call-matcher constructor
    pub method_name: String,
    /// fresh lifetime indices, exactly one per reference parameter
    pub lifetimes: Vec<usize>,
    /// the method's own generic parameters, each with the debug bound
    pub ty_params: Vec<TyParamDecl>,
    /// one matcher parameter per argument, in order
    pub matchers: Vec<MatcherParam>,
    /// which call-matcher family is constructed: one per argument count
    pub call_match_n: usize,
    /// the call-matcher's type arguments: the (lifetime-freshened)
    /// argument types followed by the return type
    pub call_match_args: Vec<Ty>,
    pub mock_type_id: usize,
}

pub struct SpecBuilderMethodDef {
    pub name: Seq<char>,
    pub method_name: Seq<char>,
    pub lifetimes: Seq<usize>,
    pub ty_params: Seq<SpecTyParamDecl>,
    pub matchers: Seq<SpecMatcherParam>,
    pub call_match_n: usize,
    pub call_match_args: Seq<SpecTy>,
    pub mock_type_id: usize,
}

impl View for BuilderMethodDef {
    type V = SpecBuilderMethodDef;

    open spec fn view(&self) -> SpecBuilderMethodDef {
        SpecBuilderMethodDef {
            name: self.name@,
            method_name: self.method_name@,
            lifetimes: self.lifetimes@,
            ty_params: typarams_view(self.ty_params@),
            matchers: matchers_view(self.matchers@),
            call_match_n: self.call_match_n,
            call_match_args: crate::ast::tys_view(self.call_match_args@),
            mock_type_id: self.mock_type_id,
        }
    }
}

/// The stub and builder generated for one method, and whether the
/// method is static (receiver-less).
#[derive(Debug, PartialEq, Eq)]
pub struct MethodPair {
    pub is_static: bool,
    pub stub: StubMethodDef,
    pub builder: BuilderMethodDef,
}

pub struct SpecMethodPair {
    pub is_static: bool,
    pub stub: SpecStubMethodDef,
    pub builder: SpecBuilderMethodDef,
}

impl View for MethodPair {
    type V = SpecMethodPair;

    open spec fn view(&self) -> SpecMethodPair {
        SpecMethodPair { is_static: self.is_static, stub: self.stub@, builder: self.builder@ }
    }
}

pub open spec fn stubs_view(s: Seq<StubMethodDef>) -> Seq<SpecStubMethodDef> {
    s.map_values(|d: StubMethodDef| d@)
}

/// The views of a stub list are the list of views, pointwise.
pub broadcast proof fn lemma_stubs_view_index(s: Seq<StubMethodDef>)
    ensures
        (#[trigger] stubs_view(s)).len() == s.len(),
        forall|i: int| 0 <= i < s.len() ==> stubs_view(s)[i] == s[i]@,
{
}

pub open spec fn builders_view(s: Seq<BuilderMethodDef>) -> Seq<SpecBuilderMethodDef> {
    s.map_values(|d: BuilderMethodDef| d@)
}

/// The views of a builder list are the list of views, pointwise.
pub broadcast proof fn lemma_builders_view_index(s: Seq<BuilderMethodDef>)
    ensures
        (#[trigger] builders_view(s)).len() == s.len(),
        forall|i: int| 0 <= i < s.len() ==> builders_view(s)[i] == s[i]@,
{
}

/// `impl<..> Mock for <name><..>`: the uniform construct-and-name
/// implementation. `register_ids` is empty for an ordinary mock; a
/// static mock's constructor registers every listed interface id into
/// the thread-scoped table (and must abort on a collision).
#[derive(Debug, PartialEq, Eq)]
pub struct MockImplDef {
    pub mock_name: String,
    /// what `mocked_class_name` reports: the `+`-joined interface paths
    pub class_name: String,
    pub ty_params: Vec<String>,
    pub register_ids: Vec<usize>,
}

pub struct SpecMockImplDef {
    pub mock_name: Seq<char>,
    pub class_name: Seq<char>,
    pub ty_params: Seq<Seq<char>>,
    pub register_ids: Seq<usize>,
}

impl View for MockImplDef {
    type V = SpecMockImplDef;

    open spec fn view(&self) -> SpecMockImplDef {
        SpecMockImplDef {
            mock_name: self.mock_name@,
            class_name: self.class_name@,
            ty_params: strings_view(self.ty_params@),
            register_ids: self.register_ids@,
        }
    }
}

/// What is generated for one implemented interface: the builder impl on
/// the mock type, the interface implementation (with one associated-type
/// binding per gathered associated type, and the stubs), and, when the
/// interface has static methods, the secondary static-mock artifacts.
#[derive(Debug, PartialEq, Eq)]
pub struct TraitSection {
    pub trait_path: QualName,
    pub mock_type_id: usize,
    /// builder methods of instance methods, on the mock type
    pub builder_methods: Vec<BuilderMethodDef>,
    /// stubs of instance methods, then stubs of static methods, inside
    /// the interface implementation
    pub stub_methods: Vec<StubMethodDef>,
    pub static_stub_methods: Vec<StubMethodDef>,
    /// the static-mock artifacts, present exactly when a method of this
    /// interface is static
    pub static_part: Option<StaticSection>,
}

/// The secondary mock for static methods: a structurally identical
/// struct whose constructor registers the interface ids. Its
/// destruction must deregister the same ids again; a stale entry after
/// destruction would break the one-live-mock-per-id invariant that
/// `crate::statics::StaticMockTable` states.
#[derive(Debug, PartialEq, Eq)]
pub struct StaticSection {
    pub mock_struct: MockStructDef,
    pub builder_methods: Vec<BuilderMethodDef>,
    pub mock_impl: MockImplDef,
}

pub struct SpecStaticSection {
    pub mock_struct: SpecMockStructDef,
    pub builder_methods: Seq<SpecBuilderMethodDef>,
    pub mock_impl: SpecMockImplDef,
}

pub struct SpecTraitSection {
    pub trait_path: SpecQualName,
    pub mock_type_id: usize,
    pub builder_methods: Seq<SpecBuilderMethodDef>,
    pub stub_methods: Seq<SpecStubMethodDef>,
    pub static_stub_methods: Seq<SpecStubMethodDef>,
    pub static_part: Option<SpecStaticSection>,
}

impl View for StaticSection {
    type V = SpecStaticSection;

    open spec fn view(&self) -> SpecStaticSection {
        SpecStaticSection {
            mock_struct: self.mock_struct@,
            builder_methods: builders_view(self.builder_methods@),
            mock_impl: self.mock_impl@,
        }
    }
}

impl View for TraitSection {
    type V = SpecTraitSection;

    open spec fn view(&self) -> SpecTraitSection {
        SpecTraitSection {
            trait_path: self.trait_path@,
            mock_type_id: self.mock_type_id,
            builder_methods: builders_view(self.builder_methods@),
            stub_methods: stubs_view(self.stub_methods@),
            static_stub_methods: stubs_view(self.static_stub_methods@),
            static_part: match &self.static_part {
                Option::None => Option::None,
                Option::Some(s) => Option::Some(s@),
            },
        }
    }
}

pub open spec fn sections_view(s: Seq<TraitSection>) -> Seq<SpecTraitSection> {
    s.map_values(|x: TraitSection| x@)
}

/// The views of a section list are the list of views, pointwise.
pub broadcast proof fn lemma_sections_view_index(s: Seq<TraitSection>)
    ensures
        (#[trigger] sections_view(s)).len() == s.len(),
        forall|i: int| 0 <= i < s.len() ==> sections_view(s)[i] == s[i]@,
{
}

/// The whole output of one generation for a set of interfaces.
#[derive(Debug, PartialEq, Eq)]
pub struct MockOutput {
    /// the mock structure itself
    pub mock_struct: MockStructDef,
    /// the associated-type names promoted to generic parameters
    pub assoc_types: Vec<String>,
    /// one section per implemented interface, bases first, primary last
    pub sections: Vec<TraitSection>,
    /// the construct-and-name implementation of the mock itself
    pub mock_impl: MockImplDef,
    /// the debug hook asking the engine for this instance's name
    pub has_debug_impl: bool,
    /// the interface-to-mock lookup convenience, present only for a
    /// local, single-interface mock without generic or static methods
    pub mocked_impl_for: Option<QualName>,
}

pub struct SpecMockOutput {
    pub mock_struct: SpecMockStructDef,
    pub assoc_types: Seq<Seq<char>>,
    pub sections: Seq<SpecTraitSection>,
    pub mock_impl: SpecMockImplDef,
    pub has_debug_impl: bool,
    pub mocked_impl_for: Option<SpecQualName>,
}

impl View for MockOutput {
    type V = SpecMockOutput;

    open spec fn view(&self) -> SpecMockOutput {
        SpecMockOutput {
            mock_struct: self.mock_struct@,
            assoc_types: strings_view(self.assoc_types@),
            sections: sections_view(self.sections@),
            mock_impl: self.mock_impl@,
            has_debug_impl: self.has_debug_impl,
            mocked_impl_for: match &self.mocked_impl_for {
                Option::None => Option::None,
                Option::Some(q) => Option::Some(q@),
            },
        }
    }
}

/// The output of extern-block generation: a minimal mock struct (id
/// only), its registering construct-and-name impl, a deregistering drop
/// impl, builder methods on the struct, and one free forwarding
/// function per input function.
#[derive(Debug, PartialEq, Eq)]
pub struct ExternMockOutput {
    pub mock_name: String,
    /// the one id assigned to the whole block
    pub mock_type_id: usize,
    pub builder_methods: Vec<BuilderMethodDef>,
    pub stub_fns: Vec<StubMethodDef>,
    pub mock_impl: MockImplDef,
}

pub struct SpecExternMockOutput {
    pub mock_name: Seq<char>,
    pub mock_type_id: usize,
    pub builder_methods: Seq<SpecBuilderMethodDef>,
    pub stub_fns: Seq<SpecStubMethodDef>,
    pub mock_impl: SpecMockImplDef,
}

impl View for ExternMockOutput {
    type V = SpecExternMockOutput;

    open spec fn view(&self) -> SpecExternMockOutput {
        SpecExternMockOutput {
            mock_name: self.mock_name@,
            mock_type_id: self.mock_type_id,
            builder_methods: builders_view(self.builder_methods@),
            stub_fns: stubs_view(self.stub_fns@),
            mock_impl: self.mock_impl@,
        }
    }
}

} // verus!
