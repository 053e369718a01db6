use datasheets::group_weapon_mods;
use datasheets::CrusadeUpgrade;
use datasheets::WeaponMod;
use datasheets::WeaponModChange;
use datasheets::WeaponReference;

fn named_mod(
    name: &str,
    one: WeaponModChange,
    two: WeaponModChange,
    target: Option<WeaponReference>,
) -> WeaponMod {
    WeaponMod {
        name: String::from(name),
        change_one: one,
        change_two: two,
        target,
    }
}

#[test]
fn mod_equality_is_order_independent() {
    let r = WeaponReference::new(String::from("Bolter"), true, 0);
    let a = named_mod("X", WeaponModChange::Attacks, WeaponModChange::AP, Some(r.clone()));
    let b = named_mod("X", WeaponModChange::AP, WeaponModChange::Attacks, Some(r));
    assert!(a == b);
}

#[test]
fn mod_equality_checks_name_and_target() {
    let r = WeaponReference::new(String::from("Bolter"), true, 0);
    let a = named_mod("X", WeaponModChange::Attacks, WeaponModChange::AP, Some(r.clone()));
    let renamed = named_mod("Y", WeaponModChange::Attacks, WeaponModChange::AP, Some(r.clone()));
    let untargeted = named_mod("X", WeaponModChange::Attacks, WeaponModChange::AP, None);
    let elsewhere = named_mod(
        "X",
        WeaponModChange::Attacks,
        WeaponModChange::AP,
        Some(WeaponReference::new(String::from("Bolter"), true, 1)),
    );
    assert!(a != renamed);
    assert!(a != untargeted);
    assert!(a != elsewhere);
}

#[test]
fn grouping_combines_swapped_changes() {
    let r = WeaponReference::new(String::from("Bolter"), true, 0);
    let a = named_mod("X", WeaponModChange::Attacks, WeaponModChange::AP, Some(r.clone()));
    let b = named_mod("X", WeaponModChange::AP, WeaponModChange::Attacks, Some(r));
    let ups = vec![CrusadeUpgrade::WeaponMod(a.clone()), CrusadeUpgrade::WeaponMod(b)];
    let grouped = group_weapon_mods(&ups);
    assert_eq!(grouped.len(), 1);
    assert_eq!(grouped[0].0, 2);
    assert!(grouped[0].1 == a);
}

#[test]
fn grouping_skips_untargeted_mods_and_other_upgrades() {
    let r = WeaponReference::new(String::from("Bolter"), true, 0);
    let targeted = named_mod("X", WeaponModChange::Attacks, WeaponModChange::AP, Some(r));
    let untargeted = named_mod("X", WeaponModChange::Attacks, WeaponModChange::AP, None);
    let ups = vec![
        CrusadeUpgrade::WeaponMod(untargeted),
        CrusadeUpgrade::WeaponMod(targeted.clone()),
        CrusadeUpgrade::Relic(datasheets::Ability::default()),
    ];
    let grouped = group_weapon_mods(&ups);
    assert_eq!(grouped.len(), 1);
    assert_eq!(grouped[0].0, 1);
    assert!(grouped[0].1 == targeted);
}

#[test]
fn grouping_keeps_distinct_mods_in_first_seen_order() {
    let r = WeaponReference::new(String::from("Bolter"), true, 0);
    let a = named_mod("X", WeaponModChange::Attacks, WeaponModChange::AP, Some(r.clone()));
    let b = named_mod("Y", WeaponModChange::Skill, WeaponModChange::Damage, Some(r));
    let ups = vec![
        CrusadeUpgrade::WeaponMod(a.clone()),
        CrusadeUpgrade::WeaponMod(b.clone()),
        CrusadeUpgrade::WeaponMod(a.clone()),
    ];
    let grouped = group_weapon_mods(&ups);
    assert_eq!(grouped.len(), 2);
    assert_eq!(grouped[0].0, 2);
    assert!(grouped[0].1 == a);
    assert_eq!(grouped[1].0, 1);
    assert!(grouped[1].1 == b);
}

#[test]
fn change_accessors_look_at_both_slots() {
    let m = named_mod("X", WeaponModChange::Attacks, WeaponModChange::AP, None);
    assert!(m.attacks());
    assert!(m.ap());
    assert!(!m.skill());
    assert!(!m.strength());
    assert!(!m.damage());
    assert!(!m.precise());
    let p = named_mod("Y", WeaponModChange::Precise, WeaponModChange::Strength, None);
    assert!(p.precise());
    assert!(p.strength());
}

#[test]
fn change_names() {
    assert_eq!(WeaponModChange::Attacks.to_string(), "Attacks");
    assert_eq!(WeaponModChange::Skill.to_string(), "Skill");
    assert_eq!(WeaponModChange::Strength.to_string(), "Strength");
    assert_eq!(WeaponModChange::AP.to_string(), "AP");
    assert_eq!(WeaponModChange::Damage.to_string(), "Damage");
    assert_eq!(WeaponModChange::Precise.to_string(), "Precise");
}

#[test]
fn upgrade_kind_names() {
    let m = named_mod("X", WeaponModChange::Attacks, WeaponModChange::AP, None);
    assert_eq!(CrusadeUpgrade::WeaponMod(m).to_string(), "Weapon Mod");
    assert_eq!(
        CrusadeUpgrade::Relic(datasheets::Ability::default()).to_string(),
        "Relic"
    );
    assert_eq!(
        CrusadeUpgrade::BattleTrait(datasheets::Ability::default()).to_string(),
        "Battle Trait"
    );
}
