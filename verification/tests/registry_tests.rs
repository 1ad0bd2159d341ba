use mockgen::ast::QualName;
use mockgen::decl::TraitDecl;
use mockgen::registry::Registry;
use mockgen::statics::StaticMockTable;

fn qual_name(names: &[&str]) -> QualName {
    QualName { global: false, segments: names.iter().map(|n| n.to_string()).collect() }
}

fn decl_named(name: &str) -> TraitDecl {
    TraitDecl {
        name: name.to_string(),
        is_unsafe: false,
        lifetime_params: vec![],
        ty_params: vec![],
        has_where_clause: false,
        bounds: vec![],
        members: vec![],
    }
}

#[test]
fn lookup_finds_a_registration() {
    let mut reg = Registry::new();
    reg.register(qual_name(&["m", "A"]), decl_named("A"));
    let found = reg.lookup(&qual_name(&["m", "A"])).expect("registered name must resolve");
    assert_eq!(found.name, "A");
    assert!(reg.lookup(&qual_name(&["m", "B"])).is_none());
}

#[test]
fn registering_twice_overwrites_rather_than_duplicates() {
    let mut reg = Registry::new();
    let mut first = decl_named("A");
    first.has_where_clause = true;
    reg.register(qual_name(&["m", "A"]), first);
    reg.register(qual_name(&["m", "A"]), decl_named("A"));
    let found = reg.lookup(&qual_name(&["m", "A"])).expect("registered name must resolve");
    assert!(!found.has_where_clause, "a lookup must resolve to the latest registration");
}

#[test]
fn static_table_registers_and_looks_up() {
    let mut table = StaticMockTable::new();
    assert!(!table.contains(7));
    table.register(7, 42);
    assert!(table.contains(7));
    assert_eq!(table.lookup(7), Some(42));
    assert_eq!(table.lookup(8), None);
}

#[test]
fn duplicate_static_registration_is_refused_not_overwritten() {
    let mut table = StaticMockTable::new();
    assert!(table.try_register(7, 1));
    assert!(!table.try_register(7, 2), "a second live registration must fail loudly");
    assert_eq!(table.lookup(7), Some(1), "the first registration must stay untouched");
}

#[test]
fn deregistration_frees_the_id() {
    let mut table = StaticMockTable::new();
    table.register(7, 1);
    table.deregister(7);
    assert!(!table.contains(7));
    assert!(table.try_register(7, 2), "a deregistered id is free again");
    assert_eq!(table.lookup(7), Some(2));
}
