use mockgen::ast::{PathSeg, QualName, SegArgs, Ty, TyPath};
use mockgen::decl::{
    ArgPat, ForeignItem, ForeignMod, GenError, MethodArg, MethodSig, Receiver, TraitBound,
    TraitDecl, TraitMember, UnsupportedKind,
};
use mockgen::codegen::{mocked_impl, InputItem, MockGenerated, MockOptions, RefMapping};
use mockgen::registry::Registry;
use mockgen::IdCounter;

fn plain_path_ty(names: &[&str]) -> Ty {
    Ty::Path(TyPath {
        qself: None,
        global: false,
        segments: names
            .iter()
            .map(|n| PathSeg { name: n.to_string(), args: SegArgs::Plain })
            .collect(),
    })
}

fn qual_name(global: bool, names: &[&str]) -> QualName {
    QualName { global, segments: names.iter().map(|n| n.to_string()).collect() }
}

fn method(name: &str, receiver: Option<Receiver>, args: Vec<MethodArg>, ret: Option<Ty>) -> MethodSig {
    MethodSig {
        name: name.to_string(),
        is_unsafe: false,
        is_const: false,
        has_abi: false,
        ty_params: vec![],
        receiver,
        args,
        ret,
    }
}

fn trait_named(name: &str, members: Vec<TraitMember>) -> TraitDecl {
    TraitDecl {
        name: name.to_string(),
        is_unsafe: false,
        lifetime_params: vec![],
        ty_params: vec![],
        has_where_clause: false,
        bounds: vec![],
        members,
    }
}

fn no_options() -> MockOptions {
    MockOptions { mock_name: None, refs: vec![], registration_path: None }
}

#[test]
fn the_annotation_takes_traits_and_extern_blocks_only() {
    let mut reg = Registry::new();
    let mut counter = IdCounter::new();
    let r = mocked_impl(&InputItem::OtherItem, &no_options(), &mut reg, &mut counter);
    assert_eq!(r, Err(GenError::Unsupported(UnsupportedKind::NotTraitOrExtern)));
}

#[test]
fn extern_block_needs_an_explicit_mock_name() {
    let fm = ForeignMod { items: vec![] };
    let mut reg = Registry::new();
    let mut counter = IdCounter::new();
    let r = mocked_impl(&InputItem::ForeignBlock(fm), &no_options(), &mut reg, &mut counter);
    assert_eq!(r, Err(GenError::MissingMockName));
    assert_eq!(counter.next, 0);
}

#[test]
fn extern_block_generates_unsafe_static_stubs() {
    let fm = ForeignMod {
        items: vec![ForeignItem::Fn(method(
            "now",
            None,
            vec![],
            Some(plain_path_ty(&["u64"])),
        ))],
    };
    let opts = MockOptions {
        mock_name: Some("ClockMock".to_string()),
        refs: vec![],
        registration_path: None,
    };
    let mut reg = Registry::new();
    let mut counter = IdCounter::new();
    let (generated, include_source) =
        mocked_impl(&InputItem::ForeignBlock(fm), &opts, &mut reg, &mut counter).unwrap();
    assert!(!include_source, "the original extern block is never echoed");
    let out = match generated {
        MockGenerated::Extern(out) => out,
        other => panic!("expected extern output, got {:?}", other),
    };
    assert_eq!(out.mock_name, "ClockMock");
    assert_eq!(out.mock_type_id, 0);
    assert_eq!(out.stub_fns.len(), 1);
    assert!(out.stub_fns[0].is_unsafe);
    assert!(out.stub_fns[0].via_static_lookup);
    assert_eq!(out.stub_fns[0].verify_n, 0);
    assert_eq!(out.builder_methods[0].name, "now_call");
    assert_eq!(out.mock_impl.register_ids, vec![0]);
    assert_eq!(counter.next, 1, "the whole block gets one id");
}

#[test]
fn extern_static_item_is_rejected_but_consumes_the_id() {
    let fm = ForeignMod { items: vec![ForeignItem::StaticItem] };
    let opts = MockOptions {
        mock_name: Some("M".to_string()),
        refs: vec![],
        registration_path: None,
    };
    let mut reg = Registry::new();
    let mut counter = IdCounter::new();
    let r = mocked_impl(&InputItem::ForeignBlock(fm), &opts, &mut reg, &mut counter);
    assert_eq!(r, Err(GenError::Unsupported(UnsupportedKind::ExternStatic)));
    assert_eq!(counter.next, 1);
}

#[test]
fn default_mock_name_appends_mock() {
    let decl = trait_named(
        "Greeter",
        vec![TraitMember::Method(method("greet", Some(Receiver::Ref), vec![], None))],
    );
    let mut reg = Registry::new();
    let mut counter = IdCounter::new();
    let (generated, include_source) =
        mocked_impl(&InputItem::TraitItem(decl), &no_options(), &mut reg, &mut counter).unwrap();
    assert!(include_source, "the original declaration is kept in front of the mock");
    match generated {
        MockGenerated::Traits(out) => assert_eq!(out.mock_struct.name, "GreeterMock"),
        other => panic!("expected trait output, got {:?}", other),
    }
}

#[test]
fn base_resolution_goes_through_the_registry() {
    let base = trait_named(
        "A",
        vec![TraitMember::Method(method("ping", Some(Receiver::Ref), vec![], None))],
    );
    let mut reg = Registry::new();
    let mut counter = IdCounter::new();

    // Register A under ::m::A while generating its own mock.
    let opts_a = MockOptions {
        mock_name: None,
        refs: vec![],
        registration_path: Some(qual_name(true, &["m"])),
    };
    mocked_impl(&InputItem::TraitItem(base), &opts_a, &mut reg, &mut counter).unwrap();
    assert!(reg.lookup(&qual_name(true, &["m", "A"])).is_some());

    // B extends ::m::A by its full path.
    let mut derived = trait_named(
        "B",
        vec![TraitMember::Method(method("pong", Some(Receiver::Ref), vec![], None))],
    );
    derived.bounds = vec![TraitBound::TraitRef {
        path: qual_name(true, &["m", "A"]),
        modifier_default: true,
        has_lifetimes: false,
    }];
    let (generated, _inc) =
        mocked_impl(&InputItem::TraitItem(derived), &no_options(), &mut reg, &mut counter)
            .unwrap();
    let out = match generated {
        MockGenerated::Traits(out) => out,
        other => panic!("expected trait output, got {:?}", other),
    };
    assert_eq!(out.sections.len(), 2);
    assert!(out.sections[0].trait_path.global);
    assert_eq!(out.sections[0].trait_path.segments, vec!["m".to_string(), "A".to_string()]);
    assert_eq!(out.sections[1].trait_path.segments, vec!["B".to_string()]);
    assert_eq!(out.mock_impl.class_name, "::m::A+B");
}

#[test]
fn unqualified_base_needs_a_path_mapping() {
    let mut derived = trait_named("B", vec![]);
    derived.bounds = vec![TraitBound::TraitRef {
        path: qual_name(false, &["A"]),
        modifier_default: true,
        has_lifetimes: false,
    }];
    let mut reg = Registry::new();
    let mut counter = IdCounter::new();
    let r = mocked_impl(
        &InputItem::TraitItem(derived),
        &no_options(),
        &mut reg,
        &mut counter,
    );
    assert!(matches!(r, Err(GenError::UnresolvedBase(_))));
}

#[test]
fn mapped_base_resolves_against_the_registry() {
    let base = trait_named("A", vec![]);
    let mut reg = Registry::new();
    let mut counter = IdCounter::new();
    let opts_a = MockOptions {
        mock_name: None,
        refs: vec![],
        registration_path: Some(qual_name(true, &["m"])),
    };
    mocked_impl(&InputItem::TraitItem(base), &opts_a, &mut reg, &mut counter).unwrap();

    let mut derived = trait_named("B", vec![]);
    derived.bounds = vec![TraitBound::TraitRef {
        path: qual_name(false, &["A"]),
        modifier_default: true,
        has_lifetimes: false,
    }];
    let opts_b = MockOptions {
        mock_name: None,
        refs: vec![RefMapping {
            from: qual_name(false, &["A"]),
            to: qual_name(true, &["m", "A"]),
        }],
        registration_path: None,
    };
    let r = mocked_impl(&InputItem::TraitItem(derived), &opts_b, &mut reg, &mut counter);
    assert!(r.is_ok(), "a mapped base reference must resolve: {:?}", r);
}

#[test]
fn destructured_extern_parameter_is_rejected() {
    let fm = ForeignMod {
        items: vec![ForeignItem::Fn(MethodSig {
            name: "f".to_string(),
            is_unsafe: false,
            is_const: false,
            has_abi: false,
            ty_params: vec![],
            receiver: None,
            args: vec![MethodArg { pat: ArgPat::Other, ty: plain_path_ty(&["u32"]) }],
            ret: None,
        })],
    };
    let opts = MockOptions {
        mock_name: Some("M".to_string()),
        refs: vec![],
        registration_path: None,
    };
    let mut reg = Registry::new();
    let mut counter = IdCounter::new();
    let r = mocked_impl(&InputItem::ForeignBlock(fm), &opts, &mut reg, &mut counter);
    assert_eq!(r, Err(GenError::Unsupported(UnsupportedKind::NonIdentParam)));
}
