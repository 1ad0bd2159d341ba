//! Structural model of interface declarations: members, methods and
//! supertrait bounds, plus the error taxonomy of generation.

use vstd::prelude::*;

use crate::ast::{
    clone_strings, opt_lifetime_view, strings_view, ty_view, QualName, SpecQualName, SpecTy, Ty,
};

verus! {

/// How a method takes its receiver. A method without a receiver is
/// static: it cannot read the mock instance's state.
#[derive(Debug, Clone, Copy, PartialEq, Eq, Structural)]
pub enum Receiver {
    Value,
    Ref,
    RefMut,
}

/// The pattern binding one method parameter. Only a plain identifier is
/// supported; anything else (a destructuring pattern, a bare type with
/// no name) is `Other` and rejected by method code generation.
#[derive(Debug, Clone, PartialEq, Eq)]
pub enum ArgPat {
    Named(String),
    Other,
}

pub enum SpecArgPat {
    Named(Seq<char>),
    Other,
}

impl View for ArgPat {
    type V = SpecArgPat;

    open spec fn view(&self) -> SpecArgPat {
        match self {
            ArgPat::Named(n) => SpecArgPat::Named(n@),
            ArgPat::Other => SpecArgPat::Other,
        }
    }
}

/// One non-receiver method parameter.
#[derive(Debug, PartialEq, Eq)]
pub struct MethodArg {
    pub pat: ArgPat,
    pub ty: Ty,
}

pub struct SpecMethodArg {
    pub pat: SpecArgPat,
    pub ty: SpecTy,
}

impl View for MethodArg {
    type V = SpecMethodArg;

    open spec fn view(&self) -> SpecMethodArg {
        SpecMethodArg { pat: self.pat@, ty: ty_view(self.ty) }
    }
}

pub open spec fn args_view(s: Seq<MethodArg>) -> Seq<SpecMethodArg> {
    s.map_values(|a: MethodArg| a@)
}

/// The views of an argument list are the list of views, pointwise.
pub broadcast proof fn lemma_args_view_index(s: Seq<MethodArg>)
    ensures
        (#[trigger] args_view(s)).len() == s.len(),
        forall|i: int| 0 <= i < s.len() ==> args_view(s)[i] == s[i]@,
{
}

pub open spec fn opt_ty_view(o: Option<Ty>) -> Option<SpecTy> {
    match o {
        Option::None => Option::None,
        Option::Some(t) => Option::Some(ty_view(t)),
    }
}

/// A method signature as declared by the interface.
#[derive(Debug, PartialEq, Eq)]
pub struct MethodSig {
    pub name: String,
    /// declared `unsafe` (rejected)
    pub is_unsafe: bool,
    /// declared `const` (rejected)
    pub is_const: bool,
    /// declared with a non-default calling convention (rejected)
    pub has_abi: bool,
    /// the method's own generic type parameters
    pub ty_params: Vec<String>,
    /// `None` for a method with no receiver (a static method)
    pub receiver: Option<Receiver>,
    /// the parameters after the receiver
    pub args: Vec<MethodArg>,
    /// `None` for an omitted return type, standing for the empty tuple
    pub ret: Option<Ty>,
}

pub struct SpecMethodSig {
    pub name: Seq<char>,
    pub is_unsafe: bool,
    pub is_const: bool,
    pub has_abi: bool,
    pub ty_params: Seq<Seq<char>>,
    pub receiver: Option<Receiver>,
    pub args: Seq<SpecMethodArg>,
    pub ret: Option<SpecTy>,
}

impl View for MethodSig {
    type V = SpecMethodSig;

    open spec fn view(&self) -> SpecMethodSig {
        SpecMethodSig {
            name: self.name@,
            is_unsafe: self.is_unsafe,
            is_const: self.is_const,
            has_abi: self.has_abi,
            ty_params: strings_view(self.ty_params@),
            receiver: self.receiver,
            args: args_view(self.args@),
            ret: opt_ty_view(self.ret),
        }
    }
}

/// One interface member. Constants and macro invocations are carried so
/// that validation can reject them as the declaration wrote them.
#[derive(Debug, PartialEq, Eq)]
pub enum TraitMember {
    Method(MethodSig),
    AssocType { name: String, has_bounds: bool },
    ConstItem,
    MacroItem,
}

pub enum SpecTraitMember {
    Method(SpecMethodSig),
    AssocType { name: Seq<char>, has_bounds: bool },
    ConstItem,
    MacroItem,
}

impl View for TraitMember {
    type V = SpecTraitMember;

    open spec fn view(&self) -> SpecTraitMember {
        match self {
            TraitMember::Method(m) => SpecTraitMember::Method(m@),
            TraitMember::AssocType { name, has_bounds } => SpecTraitMember::AssocType {
                name: name@,
                has_bounds: *has_bounds,
            },
            TraitMember::ConstItem => SpecTraitMember::ConstItem,
            TraitMember::MacroItem => SpecTraitMember::MacroItem,
        }
    }
}

pub open spec fn members_view(s: Seq<TraitMember>) -> Seq<SpecTraitMember> {
    s.map_values(|m: TraitMember| m@)
}

/// The views of a member list are the list of views, pointwise.
pub broadcast proof fn lemma_members_view_index(s: Seq<TraitMember>)
    ensures
        (#[trigger] members_view(s)).len() == s.len(),
        forall|i: int| 0 <= i < s.len() ==> members_view(s)[i] == s[i]@,
{
}

/// One bound on the interface declaration: a base-interface reference,
/// or a lifetime bound (rejected).
#[derive(Debug, PartialEq, Eq)]
pub enum TraitBound {
    TraitRef { path: QualName, modifier_default: bool, has_lifetimes: bool },
    Lifetime,
}

pub enum SpecTraitBound {
    TraitRef { path: SpecQualName, modifier_default: bool, has_lifetimes: bool },
    Lifetime,
}

impl View for TraitBound {
    type V = SpecTraitBound;

    open spec fn view(&self) -> SpecTraitBound {
        match self {
            TraitBound::TraitRef { path, modifier_default, has_lifetimes } =>
                SpecTraitBound::TraitRef {
                path: path@,
                modifier_default: *modifier_default,
                has_lifetimes: *has_lifetimes,
            },
            TraitBound::Lifetime => SpecTraitBound::Lifetime,
        }
    }
}

pub open spec fn bounds_view(s: Seq<TraitBound>) -> Seq<SpecTraitBound> {
    s.map_values(|b: TraitBound| b@)
}

/// The views of a bound list are the list of views, pointwise.
pub broadcast proof fn lemma_bounds_view_index(s: Seq<TraitBound>)
    ensures
        (#[trigger] bounds_view(s)).len() == s.len(),
        forall|i: int| 0 <= i < s.len() ==> bounds_view(s)[i] == s[i]@,
{
}

/// An interface declaration as handed to the generator.
#[derive(Debug, PartialEq, Eq)]
pub struct TraitDecl {
    pub name: String,
    /// declared `unsafe` (rejected)
    pub is_unsafe: bool,
    /// declared lifetime parameters (rejected when non-empty)
    pub lifetime_params: Vec<String>,
    /// declared generic type parameters (rejected when non-empty)
    pub ty_params: Vec<String>,
    /// a `where` clause with at least one predicate (rejected)
    pub has_where_clause: bool,
    /// supertrait bounds
    pub bounds: Vec<TraitBound>,
    pub members: Vec<TraitMember>,
}

pub struct SpecTraitDecl {
    pub name: Seq<char>,
    pub is_unsafe: bool,
    pub lifetime_params: Seq<Seq<char>>,
    pub ty_params: Seq<Seq<char>>,
    pub has_where_clause: bool,
    pub bounds: Seq<SpecTraitBound>,
    pub members: Seq<SpecTraitMember>,
}

impl View for TraitDecl {
    type V = SpecTraitDecl;

    open spec fn view(&self) -> SpecTraitDecl {
        SpecTraitDecl {
            name: self.name@,
            is_unsafe: self.is_unsafe,
            lifetime_params: strings_view(self.lifetime_params@),
            ty_params: strings_view(self.ty_params@),
            has_where_clause: self.has_where_clause,
            bounds: bounds_view(self.bounds@),
            members: members_view(self.members@),
        }
    }
}

/// One entry of a generation request: an interface declaration together
/// with the module path under which its members are referenced (empty
/// for the local, primary interface).
#[derive(Debug, PartialEq, Eq)]
pub struct TraitRequest {
    pub mod_path: QualName,
    pub decl: TraitDecl,
}

pub struct SpecTraitRequest {
    pub mod_path: SpecQualName,
    pub decl: SpecTraitDecl,
}

impl View for TraitRequest {
    type V = SpecTraitRequest;

    open spec fn view(&self) -> SpecTraitRequest {
        SpecTraitRequest { mod_path: self.mod_path@, decl: self.decl@ }
    }
}

pub open spec fn requests_view(s: Seq<TraitRequest>) -> Seq<SpecTraitRequest> {
    s.map_values(|r: TraitRequest| r@)
}

/// The views of a request list are the list of views, pointwise.
pub broadcast proof fn lemma_requests_view_index(s: Seq<TraitRequest>)
    ensures
        (#[trigger] requests_view(s)).len() == s.len(),
        forall|i: int| 0 <= i < s.len() ==> requests_view(s)[i] == s[i]@,
{
}

/// One item of an extern block handed to foreign-mode generation: a
/// free function (no receiver), or a static item (rejected).
#[derive(Debug, PartialEq, Eq)]
pub enum ForeignItem {
    Fn(MethodSig),
    StaticItem,
}

pub enum SpecForeignItem {
    Fn(SpecMethodSig),
    StaticItem,
}

impl View for ForeignItem {
    type V = SpecForeignItem;

    open spec fn view(&self) -> SpecForeignItem {
        match self {
            ForeignItem::Fn(m) => SpecForeignItem::Fn(m@),
            ForeignItem::StaticItem => SpecForeignItem::StaticItem,
        }
    }
}

pub open spec fn foreign_view(s: Seq<ForeignItem>) -> Seq<SpecForeignItem> {
    s.map_values(|x: ForeignItem| x@)
}

/// The views of a foreign-item list are the list of views, pointwise.
pub broadcast proof fn lemma_foreign_view_index(s: Seq<ForeignItem>)
    ensures
        (#[trigger] foreign_view(s)).len() == s.len(),
        forall|i: int| 0 <= i < s.len() ==> foreign_view(s)[i] == s[i]@,
{
}

/// An extern block: a flat list of free functions with no interface.
#[derive(Debug, PartialEq, Eq)]
pub struct ForeignMod {
    pub items: Vec<ForeignItem>,
}

impl View for ForeignMod {
    type V = Seq<SpecForeignItem>;

    open spec fn view(&self) -> Seq<SpecForeignItem> {
        foreign_view(self.items@)
    }
}

/// Why an interface shape is outside the supported subset.
#[derive(Debug, Clone, Copy, PartialEq, Eq, Structural)]
pub enum UnsupportedKind {
    /// the annotated item is neither a trait nor an extern block
    NotTraitOrExtern,
    /// `unsafe trait`
    UnsafeTrait,
    /// generic or lifetime parameters, or a `where` clause, on the trait
    ParametrizedTrait,
    /// a non-default modifier on a supertrait bound
    BoundModifier,
    /// higher-ranked lifetimes on a supertrait bound
    BoundLifetimes,
    /// a lifetime bound where a supertrait was expected
    LifetimeBound,
    /// an associated type with bounds
    AssocTypeBounds,
    /// a trait-level constant
    TraitConst,
    /// a trait-level macro invocation
    TraitMacro,
    /// an `unsafe` method
    UnsafeMethod,
    /// a `const` method
    ConstMethod,
    /// a method with a non-default calling convention
    NonRustAbi,
    /// a parameter bound by something other than a plain identifier
    NonIdentParam,
    /// a `static` item in an extern block
    ExternStatic,
}

/// Why a base-interface reference cannot be resolved.
#[derive(Debug, Clone, Copy, PartialEq, Eq, Structural)]
pub enum BaseIssue {
    /// an unqualified reference with no entry in the path mapping
    NoPathMapping,
    /// the resolved path is not registered
    NotRegistered,
    /// a base is not among the definitions supplied with the request
    NotInRequest,
}

/// A generation failure. Every failure is fatal to the invocation; no
/// partial output is produced.
#[derive(Debug, Clone, Copy, PartialEq, Eq, Structural)]
pub enum GenError {
    /// the declaration's shape is outside the supported subset
    Unsupported(UnsupportedKind),
    /// a base-interface reference cannot be matched to a known interface
    UnresolvedBase(BaseIssue),
    /// extern-block generation was requested without an explicit mock name
    MissingMockName,
}

impl MethodArg {
    pub fn deep_clone(&self) -> (r: MethodArg)
        ensures
            r@ == self@,
    {
        let pat = match &self.pat {
            ArgPat::Named(n) => ArgPat::Named(n.clone()),
            ArgPat::Other => ArgPat::Other,
        };
        MethodArg { pat, ty: self.ty.deep_clone() }
    }
}

pub fn clone_args(v: &Vec<MethodArg>) -> (r: Vec<MethodArg>)
    ensures
        args_view(r@) == args_view(v@),
{
    let mut out: Vec<MethodArg> = Vec::new();
    let mut i: usize = 0;
    while i < v.len()
        invariant
            i <= v.len(),
            out@.len() == i,
            forall|j: int| 0 <= j < i ==> out@[j]@ == v@[j]@,
        decreases v@.len() - i,
    {
        let c = v[i].deep_clone();
        out.push(c);
        i = i + 1;
    }
    proof {
        lemma_args_view_index(out@);
        lemma_args_view_index(v@);
        assert(args_view(out@) =~= args_view(v@));
    }
    out
}

pub fn clone_opt_ty(o: &Option<Ty>) -> (r: Option<Ty>)
    ensures
        opt_ty_view(r) == opt_ty_view(*o),
{
    match o {
        Option::None => Option::None,
        Option::Some(t) => Option::Some(t.deep_clone()),
    }
}

impl MethodSig {
    pub fn deep_clone(&self) -> (r: MethodSig)
        ensures
            r@ == self@,
    {
        MethodSig {
            name: self.name.clone(),
            is_unsafe: self.is_unsafe,
            is_const: self.is_const,
            has_abi: self.has_abi,
            ty_params: clone_strings(&self.ty_params),
            receiver: self.receiver,
            args: clone_args(&self.args),
            ret: clone_opt_ty(&self.ret),
        }
    }
}

impl TraitMember {
    pub fn deep_clone(&self) -> (r: TraitMember)
        ensures
            r@ == self@,
    {
        match self {
            TraitMember::Method(m) => TraitMember::Method(m.deep_clone()),
            TraitMember::AssocType { name, has_bounds } => TraitMember::AssocType {
                name: name.clone(),
                has_bounds: *has_bounds,
            },
            TraitMember::ConstItem => TraitMember::ConstItem,
            TraitMember::MacroItem => TraitMember::MacroItem,
        }
    }
}

pub fn clone_members(v: &Vec<TraitMember>) -> (r: Vec<TraitMember>)
    ensures
        members_view(r@) == members_view(v@),
{
    let mut out: Vec<TraitMember> = Vec::new();
    let mut i: usize = 0;
    while i < v.len()
        invariant
            i <= v.len(),
            out@.len() == i,
            forall|j: int| 0 <= j < i ==> out@[j]@ == v@[j]@,
        decreases v@.len() - i,
    {
        let c = v[i].deep_clone();
        out.push(c);
        i = i + 1;
    }
    proof {
        lemma_members_view_index(out@);
        lemma_members_view_index(v@);
        assert(members_view(out@) =~= members_view(v@));
    }
    out
}

impl TraitBound {
    pub fn deep_clone(&self) -> (r: TraitBound)
        ensures
            r@ == self@,
    {
        match self {
            TraitBound::TraitRef { path, modifier_default, has_lifetimes } =>
                TraitBound::TraitRef {
                path: path.deep_clone(),
                modifier_default: *modifier_default,
                has_lifetimes: *has_lifetimes,
            },
            TraitBound::Lifetime => TraitBound::Lifetime,
        }
    }
}

pub fn clone_bounds(v: &Vec<TraitBound>) -> (r: Vec<TraitBound>)
    ensures
        bounds_view(r@) == bounds_view(v@),
{
    let mut out: Vec<TraitBound> = Vec::new();
    let mut i: usize = 0;
    while i < v.len()
        invariant
            i <= v.len(),
            out@.len() == i,
            forall|j: int| 0 <= j < i ==> out@[j]@ == v@[j]@,
        decreases v@.len() - i,
    {
        let c = v[i].deep_clone();
        out.push(c);
        i = i + 1;
    }
    proof {
        lemma_bounds_view_index(out@);
        lemma_bounds_view_index(v@);
        assert(bounds_view(out@) =~= bounds_view(v@));
    }
    out
}

impl TraitDecl {
    pub fn deep_clone(&self) -> (r: TraitDecl)
        ensures
            r@ == self@,
    {
        TraitDecl {
            name: self.name.clone(),
            is_unsafe: self.is_unsafe,
            lifetime_params: clone_strings(&self.lifetime_params),
            ty_params: clone_strings(&self.ty_params),
            has_where_clause: self.has_where_clause,
            bounds: clone_bounds(&self.bounds),
            members: clone_members(&self.members),
        }
    }
}

impl TraitRequest {
    pub fn deep_clone(&self) -> (r: TraitRequest)
        ensures
            r@ == self@,
    {
        TraitRequest { mod_path: self.mod_path.deep_clone(), decl: self.decl.deep_clone() }
    }
}

} // verus!
