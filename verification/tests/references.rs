use datasheets::ChargeLevels;
use datasheets::WeaponReference;

#[test]
fn reference_equality_ignores_names() {
    let a = WeaponReference::new(String::from("A"), true, 2);
    let b = WeaponReference::new(String::from("B"), true, 2);
    assert!(a == b);
}

#[test]
fn reference_equality_uses_category_and_slot() {
    let a = WeaponReference::new(String::from("A"), true, 2);
    let b = WeaponReference::new(String::from("A"), false, 2);
    let c = WeaponReference::new(String::from("A"), true, 3);
    assert!(a != b);
    assert!(a != c);
}

#[test]
fn is_id_checks_position_only() {
    let a = WeaponReference::new(String::from("A"), true, 2);
    assert!(a.is_id(true, 2));
    assert!(!a.is_id(false, 2));
    assert!(!a.is_id(true, 1));
}

#[test]
fn charge_edit_round_trip_standalone() {
    let c = ChargeLevels::Standalone;
    let (has, reference, name) = c.to_edit();
    assert!(!has);
    assert!(reference.is_none());
    assert_eq!(name, "");
    let back = ChargeLevels::from_edit(has, reference, name);
    assert!(back == ChargeLevels::Standalone);
}

#[test]
fn charge_edit_round_trip_parent() {
    let c = ChargeLevels::Parent(String::from("modes"));
    let (has, reference, name) = c.to_edit();
    assert!(has);
    assert!(reference.is_none());
    assert_eq!(name, "modes");
    let back = ChargeLevels::from_edit(has, reference, name);
    assert!(back == ChargeLevels::Parent(String::from("modes")));
}

#[test]
fn charge_edit_round_trip_child() {
    let r = WeaponReference::new(String::from("P"), true, 0);
    let c = ChargeLevels::Child(r, String::from("overcharge"));
    let (has, reference, name) = c.to_edit();
    assert!(has);
    assert_eq!(name, "overcharge");
    let back = ChargeLevels::from_edit(has, reference, name);
    let expected_ref = WeaponReference::new(String::from("P"), true, 0);
    assert!(back == ChargeLevels::Child(expected_ref, String::from("overcharge")));
}
