use mockgen::ast::{PathSeg, QualName, QualifiedBase, SegArgs, Ty, TyPath};
use mockgen::rewrite::{qualify_self, set_self};

fn plain_seg(name: &str) -> PathSeg {
    PathSeg { name: name.to_string(), args: SegArgs::Plain }
}

fn plain_path_ty(names: &[&str]) -> Ty {
    Ty::Path(TyPath {
        qself: None,
        global: false,
        segments: names.iter().map(|n| plain_seg(n)).collect(),
    })
}

fn qual_name(global: bool, names: &[&str]) -> QualName {
    QualName { global, segments: names.iter().map(|n| n.to_string()).collect() }
}

#[test]
fn qualify_self_qualifies_a_self_headed_path() {
    let ty = plain_path_ty(&["Self", "Out"]);
    let tp = qual_name(false, &["a", "Tr"]);
    let rewritten = qualify_self(&ty, &tp);
    let expected = Ty::Path(TyPath {
        qself: Some(QualifiedBase {
            base: Box::new(plain_path_ty(&["Self"])),
            position: 2,
        }),
        global: false,
        segments: vec![plain_seg("a"), plain_seg("Tr"), plain_seg("Out")],
    });
    assert_eq!(rewritten, expected);
}

#[test]
fn qualify_self_leaves_other_paths_alone() {
    let ty = plain_path_ty(&["std", "string", "String"]);
    let tp = qual_name(false, &["a", "Tr"]);
    assert_eq!(qualify_self(&ty, &tp), plain_path_ty(&["std", "string", "String"]));
}

#[test]
fn qualify_self_descends_through_references_and_tuples() {
    let inner = Ty::Tuple(vec![
        plain_path_ty(&["Self"]),
        Ty::Ref(None, false, Box::new(plain_path_ty(&["u32"]))),
    ]);
    let ty = Ty::Ref(None, true, Box::new(inner));
    let tp = qual_name(false, &["Tr"]);
    let rewritten = qualify_self(&ty, &tp);
    match rewritten {
        Ty::Ref(None, true, boxed) => match *boxed {
            Ty::Tuple(items) => {
                assert_eq!(items.len(), 2);
                match &items[0] {
                    Ty::Path(p) => {
                        let qself = p.qself.as_ref().expect("Self must become qualified");
                        assert_eq!(*qself.base, plain_path_ty(&["Self"]));
                        assert_eq!(qself.position, 1);
                        assert_eq!(p.segments.len(), 1);
                        assert_eq!(p.segments[0].name, "Tr");
                    }
                    other => panic!("expected a qualified path, got {:?}", other),
                }
                assert_eq!(
                    items[1],
                    Ty::Ref(None, false, Box::new(plain_path_ty(&["u32"])))
                );
            }
            other => panic!("expected a tuple, got {:?}", other),
        },
        other => panic!("expected a reference, got {:?}", other),
    }
}

#[test]
fn set_self_substitutes_the_concrete_mock_path() {
    let ty = plain_path_ty(&["Self"]);
    let mock_path = TyPath {
        qself: None,
        global: false,
        segments: vec![PathSeg {
            name: "AMock".to_string(),
            args: SegArgs::Angle { lifetimes: vec![], types: vec![], bindings: vec![] },
        }],
    };
    let rewritten = set_self(&ty, &mock_path);
    let expected = Ty::Path(TyPath {
        qself: None,
        global: false,
        segments: vec![PathSeg {
            name: "AMock".to_string(),
            args: SegArgs::Angle { lifetimes: vec![], types: vec![], bindings: vec![] },
        }],
    });
    assert_eq!(rewritten, expected);
}

#[test]
fn set_self_keeps_trailing_segments() {
    let ty = plain_path_ty(&["Self", "Item"]);
    let mock_path = TyPath {
        qself: None,
        global: false,
        segments: vec![plain_seg("AMock")],
    };
    let rewritten = set_self(&ty, &mock_path);
    assert_eq!(rewritten, plain_path_ty(&["AMock", "Item"]));
}

#[test]
fn rewriting_recurses_into_path_arguments() {
    let arg_ty = plain_path_ty(&["Self"]);
    let ty = Ty::Path(TyPath {
        qself: None,
        global: false,
        segments: vec![PathSeg {
            name: "Vec".to_string(),
            args: SegArgs::Angle { lifetimes: vec![], types: vec![arg_ty], bindings: vec![] },
        }],
    });
    let mock_path = TyPath { qself: None, global: false, segments: vec![plain_seg("AMock")] };
    let rewritten = set_self(&ty, &mock_path);
    match rewritten {
        Ty::Path(p) => match &p.segments[0].args {
            SegArgs::Angle { types, .. } => {
                assert_eq!(types[0], plain_path_ty(&["AMock"]));
            }
            other => panic!("expected angle arguments, got {:?}", other),
        },
        other => panic!("expected a path, got {:?}", other),
    }
}
