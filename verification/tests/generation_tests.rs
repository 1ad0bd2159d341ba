use mockgen::ast::{Lifetime, PathSeg, QualName, QualifiedBase, SegArgs, Ty, TyPath};
use mockgen::decl::{
    ArgPat, GenError, MethodArg, MethodSig, Receiver, TraitBound, TraitDecl, TraitMember,
    TraitRequest, UnsupportedKind,
};
use mockgen::codegen::{generate_mock_for_traits, mock_impl};
use mockgen::IdCounter;

fn plain_seg(name: &str) -> PathSeg {
    PathSeg { name: name.to_string(), args: SegArgs::Plain }
}

fn plain_path_ty(names: &[&str]) -> Ty {
    Ty::Path(TyPath {
        qself: None,
        global: false,
        segments: names.iter().map(|n| plain_seg(n)).collect(),
    })
}

fn local_name() -> QualName {
    QualName { global: false, segments: vec![] }
}

fn method(name: &str, receiver: Option<Receiver>, args: Vec<MethodArg>, ret: Option<Ty>) -> MethodSig {
    MethodSig {
        name: name.to_string(),
        is_unsafe: false,
        is_const: false,
        has_abi: false,
        ty_params: vec![],
        receiver,
        args,
        ret,
    }
}

fn arg(name: &str, ty: Ty) -> MethodArg {
    MethodArg { pat: ArgPat::Named(name.to_string()), ty }
}

fn trait_named(name: &str, members: Vec<TraitMember>) -> TraitDecl {
    TraitDecl {
        name: name.to_string(),
        is_unsafe: false,
        lifetime_params: vec![],
        ty_params: vec![],
        has_where_clause: false,
        bounds: vec![],
        members,
    }
}

fn request(decl: TraitDecl) -> TraitRequest {
    TraitRequest { mod_path: local_name(), decl }
}

fn greeter() -> TraitDecl {
    trait_named(
        "Greeter",
        vec![TraitMember::Method(method(
            "greet",
            Some(Receiver::Ref),
            vec![arg("name", plain_path_ty(&["String"]))],
            Some(plain_path_ty(&["String"])),
        ))],
    )
}

#[test]
fn greeter_round_trip() {
    let mut counter = IdCounter::new();
    let out = mock_impl(&"GreeterMock".to_string(), &vec![request(greeter())], &mut counter)
        .expect("a supported interface must generate");

    assert_eq!(out.mock_struct.name, "GreeterMock");
    assert_eq!(out.sections.len(), 1);
    let section = &out.sections[0];
    assert_eq!(section.mock_type_id, 0);

    // The forwarding method hands one argument to the 1-argument
    // verification entry point, tagged with the method name.
    assert_eq!(section.stub_methods.len(), 1);
    let stub = &section.stub_methods[0];
    assert_eq!(stub.name, "greet");
    assert_eq!(stub.verify_n, 1);
    assert!(!stub.via_static_lookup);
    assert_eq!(stub.args.len(), 1);
    assert_eq!(stub.args[0], arg("name", plain_path_ty(&["String"])));
    assert_eq!(stub.ret, plain_path_ty(&["String"]));

    // The builder accepts one matcher and yields a 1-argument
    // call-matcher parameterized by (String, String).
    assert_eq!(section.builder_methods.len(), 1);
    let builder = &section.builder_methods[0];
    assert_eq!(builder.name, "greet_call");
    assert_eq!(builder.method_name, "greet");
    assert_eq!(builder.call_match_n, 1);
    assert_eq!(builder.matchers.len(), 1);
    assert_eq!(
        builder.call_match_args,
        vec![plain_path_ty(&["String"]), plain_path_ty(&["String"])]
    );
    assert!(section.static_part.is_none());
    assert_eq!(out.mock_impl.class_name, "Greeter");
}

#[test]
fn generation_is_deterministic() {
    let mut c1 = IdCounter::new();
    let mut c2 = IdCounter::new();
    let out1 = mock_impl(&"GreeterMock".to_string(), &vec![request(greeter())], &mut c1).unwrap();
    let out2 = mock_impl(&"GreeterMock".to_string(), &vec![request(greeter())], &mut c2).unwrap();
    assert_eq!(out1, out2);
}

#[test]
fn associated_types_become_generic_parameters() {
    let decl = trait_named(
        "Store",
        vec![
            TraitMember::AssocType { name: "Key".to_string(), has_bounds: false },
            TraitMember::AssocType { name: "Value".to_string(), has_bounds: false },
            TraitMember::Method(method(
                "get",
                Some(Receiver::Ref),
                vec![arg("k", plain_path_ty(&["Key"]))],
                Some(plain_path_ty(&["Value"])),
            )),
        ],
    );
    let mut counter = IdCounter::new();
    let out = mock_impl(&"StoreMock".to_string(), &vec![request(decl)], &mut counter).unwrap();
    assert_eq!(out.mock_struct.ty_params, vec!["Key".to_string(), "Value".to_string()]);
    assert_eq!(out.mock_struct.phantom_markers, vec!["Key".to_string(), "Value".to_string()]);
    assert_eq!(out.assoc_types, vec!["Key".to_string(), "Value".to_string()]);
}

#[test]
fn base_chain_yields_one_descriptor_per_interface_with_distinct_ids() {
    let base = trait_named(
        "A",
        vec![TraitMember::Method(method("ping", Some(Receiver::Ref), vec![], None))],
    );
    let mut middle = trait_named(
        "B",
        vec![TraitMember::Method(method("pong", Some(Receiver::Ref), vec![], None))],
    );
    middle.bounds = vec![TraitBound::TraitRef {
        path: QualName { global: false, segments: vec!["A".to_string()] },
        modifier_default: true,
        has_lifetimes: false,
    }];
    let mut counter = IdCounter::new();
    counter.fresh_id();  // ids need not start at zero
    let out = mock_impl(
        &"BMock".to_string(),
        &vec![request(base), request(middle)],
        &mut counter,
    )
    .expect("a chain whose bases are supplied must generate");
    assert_eq!(out.sections.len(), 2);
    assert_eq!(out.sections[0].trait_path.segments, vec!["A".to_string()]);
    assert_eq!(out.sections[1].trait_path.segments, vec!["B".to_string()]);
    assert_eq!(out.sections[0].mock_type_id, 1);
    assert_eq!(out.sections[1].mock_type_id, 2);
    assert_eq!(out.mock_impl.class_name, "A+B");
}

#[test]
fn missing_base_definition_is_an_unresolved_base() {
    let mut decl = trait_named("B", vec![]);
    decl.bounds = vec![TraitBound::TraitRef {
        path: QualName { global: false, segments: vec!["A".to_string()] },
        modifier_default: true,
        has_lifetimes: false,
    }];
    let mut counter = IdCounter::new();
    let r = mock_impl(&"BMock".to_string(), &vec![request(decl)], &mut counter);
    assert!(matches!(r, Err(GenError::UnresolvedBase(_))));
    assert_eq!(counter.next, 0, "a rejected request must consume no ids");
}

#[test]
fn reference_parameters_get_exactly_one_fresh_lifetime_each() {
    let decl = trait_named(
        "Writer",
        vec![TraitMember::Method(method(
            "write",
            Some(Receiver::RefMut),
            vec![
                arg("buf", Ty::Ref(None, false, Box::new(plain_path_ty(&["str"])))),
                arg("n", plain_path_ty(&["usize"])),
                arg("out", Ty::Ref(None, true, Box::new(plain_path_ty(&["u8"])))),
            ],
            None,
        ))],
    );
    let mut counter = IdCounter::new();
    let out = mock_impl(&"WriterMock".to_string(), &vec![request(decl)], &mut counter).unwrap();
    let builder = &out.sections[0].builder_methods[0];
    assert_eq!(builder.lifetimes, vec![0, 2]);
    assert_eq!(
        builder.matchers[0].matched_ty,
        Ty::Ref(Some(Lifetime::Fresh(0)), false, Box::new(plain_path_ty(&["str"])))
    );
    assert_eq!(builder.matchers[1].matched_ty, plain_path_ty(&["usize"]));
    assert_eq!(
        builder.matchers[2].matched_ty,
        Ty::Ref(Some(Lifetime::Fresh(2)), true, Box::new(plain_path_ty(&["u8"])))
    );
    // The forwarding implementation's parameter list is unchanged.
    let stub = &out.sections[0].stub_methods[0];
    assert_eq!(stub.args[0], arg("buf", Ty::Ref(None, false, Box::new(plain_path_ty(&["str"])))));
    assert_eq!(stub.args[1], arg("n", plain_path_ty(&["usize"])));
    // An omitted return type stands for the empty tuple.
    assert_eq!(stub.ret, Ty::Tuple(vec![]));
}

#[test]
fn factory_static_scenario() {
    let decl = trait_named(
        "Factory",
        vec![
            TraitMember::Method(method("create", None, vec![], Some(plain_path_ty(&["Self"])))),
            TraitMember::Method(method("use", Some(Receiver::Ref), vec![], None)),
        ],
    );
    let mut counter = IdCounter::new();
    let out = mock_impl(&"FactoryMock".to_string(), &vec![request(decl)], &mut counter).unwrap();
    let section = &out.sections[0];

    // Two mock types: the instance mock and the static mock.
    assert_eq!(out.mock_struct.name, "FactoryMock");
    let static_part = section.static_part.as_ref().expect("a static method needs a static mock");
    assert_eq!(static_part.mock_struct.name, "FactoryMockStatic");

    // The static constructor registers this interface's id.
    assert_eq!(static_part.mock_impl.register_ids, vec![0]);
    assert_eq!(static_part.mock_impl.mock_name, "FactoryMockStatic");

    // `create` forwards through the static lookup and returns the
    // instance mock type, not an unresolved `Self`.
    assert_eq!(section.static_stub_methods.len(), 1);
    let create = &section.static_stub_methods[0];
    assert_eq!(create.name, "create");
    assert!(create.via_static_lookup);
    let expected_ret = Ty::Path(TyPath {
        qself: None,
        global: false,
        segments: vec![PathSeg {
            name: "FactoryMock".to_string(),
            args: SegArgs::Angle { lifetimes: vec![], types: vec![], bindings: vec![] },
        }],
    });
    assert_eq!(create.ret, expected_ret);

    // The instance method stays an ordinary stub.
    assert_eq!(section.stub_methods.len(), 1);
    assert_eq!(section.stub_methods[0].name, "use");

    // No convenience lookup for a mock with static methods.
    assert!(out.mocked_impl_for.is_none());
}

#[test]
fn builder_signatures_qualify_self_against_the_interface() {
    let decl = trait_named(
        "Maker",
        vec![
            TraitMember::AssocType { name: "Out".to_string(), has_bounds: false },
            TraitMember::Method(method(
                "make",
                Some(Receiver::Ref),
                vec![],
                Some(plain_path_ty(&["Self", "Out"])),
            )),
        ],
    );
    let mut counter = IdCounter::new();
    let out = mock_impl(&"MakerMock".to_string(), &vec![request(decl)], &mut counter).unwrap();

    // The forwarding implementation keeps the declared return type.
    let stub = &out.sections[0].stub_methods[0];
    assert_eq!(stub.ret, plain_path_ty(&["Self", "Out"]));

    // The builder's call-matcher return position is qualified:
    // `<Self as Maker>::Out`.
    let builder = &out.sections[0].builder_methods[0];
    let expected = Ty::Path(TyPath {
        qself: Some(QualifiedBase {
            base: Box::new(plain_path_ty(&["Self"])),
            position: 1,
        }),
        global: false,
        segments: vec![plain_seg("Maker"), plain_seg("Out")],
    });
    assert_eq!(builder.call_match_args, vec![expected]);
}

#[test]
fn generic_interface_is_rejected() {
    let mut decl = trait_named("G", vec![]);
    decl.ty_params = vec!["T".to_string()];
    let mut counter = IdCounter::new();
    let r = mock_impl(&"GMock".to_string(), &vec![request(decl)], &mut counter);
    assert_eq!(r, Err(GenError::Unsupported(UnsupportedKind::ParametrizedTrait)));
    assert_eq!(counter.next, 0);
}

#[test]
fn unsafe_trait_is_rejected() {
    let mut decl = trait_named("U", vec![]);
    decl.is_unsafe = true;
    let mut counter = IdCounter::new();
    let r = mock_impl(&"UMock".to_string(), &vec![request(decl)], &mut counter);
    assert_eq!(r, Err(GenError::Unsupported(UnsupportedKind::UnsafeTrait)));
}

#[test]
fn const_method_is_rejected() {
    let mut m = method("f", Some(Receiver::Ref), vec![], None);
    m.is_const = true;
    let decl = trait_named("C", vec![TraitMember::Method(m)]);
    let mut counter = IdCounter::new();
    let r = mock_impl(&"CMock".to_string(), &vec![request(decl)], &mut counter);
    assert_eq!(r, Err(GenError::Unsupported(UnsupportedKind::ConstMethod)));
}

#[test]
fn bounded_associated_type_is_rejected() {
    let decl = trait_named(
        "S",
        vec![TraitMember::AssocType { name: "Item".to_string(), has_bounds: true }],
    );
    let mut counter = IdCounter::new();
    let r = mock_impl(&"SMock".to_string(), &vec![request(decl)], &mut counter);
    assert_eq!(r, Err(GenError::Unsupported(UnsupportedKind::AssocTypeBounds)));
}

#[test]
fn trait_level_const_and_macro_are_rejected() {
    let decl = trait_named("K", vec![TraitMember::ConstItem]);
    let mut counter = IdCounter::new();
    let r = mock_impl(&"KMock".to_string(), &vec![request(decl)], &mut counter);
    assert_eq!(r, Err(GenError::Unsupported(UnsupportedKind::TraitConst)));

    let decl = trait_named("L", vec![TraitMember::MacroItem]);
    let r = mock_impl(&"LMock".to_string(), &vec![request(decl)], &mut counter);
    assert_eq!(r, Err(GenError::Unsupported(UnsupportedKind::TraitMacro)));
}

#[test]
fn destructured_parameter_is_rejected() {
    let m = MethodSig {
        name: "f".to_string(),
        is_unsafe: false,
        is_const: false,
        has_abi: false,
        ty_params: vec![],
        receiver: Some(Receiver::Ref),
        args: vec![MethodArg { pat: ArgPat::Other, ty: plain_path_ty(&["u32"]) }],
        ret: None,
    };
    let decl = trait_named("D", vec![TraitMember::Method(m)]);
    let mut counter = IdCounter::new();
    let r = mock_impl(&"DMock".to_string(), &vec![request(decl)], &mut counter);
    assert_eq!(r, Err(GenError::Unsupported(UnsupportedKind::NonIdentParam)));
}

#[test]
fn lifetime_bound_is_rejected() {
    let mut decl = trait_named("LB", vec![]);
    decl.bounds = vec![TraitBound::Lifetime];
    let mut counter = IdCounter::new();
    let r = mock_impl(&"LBMock".to_string(), &vec![request(decl)], &mut counter);
    assert_eq!(r, Err(GenError::Unsupported(UnsupportedKind::LifetimeBound)));
}

#[test]
fn local_generation_gets_the_convenience_lookup() {
    let mut counter = IdCounter::new();
    let out = generate_mock_for_traits(
        &"GreeterMock".to_string(),
        &vec![request(greeter())],
        true,
        &mut counter,
    )
    .unwrap();
    let target = out.mocked_impl_for.expect("a plain local mock gets the lookup");
    assert_eq!(target.segments, vec!["Greeter".to_string()]);

    // Explicit-list generation never produces it.
    let mut counter2 = IdCounter::new();
    let out2 = mock_impl(&"GreeterMock".to_string(), &vec![request(greeter())], &mut counter2)
        .unwrap();
    assert!(out2.mocked_impl_for.is_none());
}
