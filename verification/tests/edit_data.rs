use datasheets::finalize_crusade;
use datasheets::ChargeLevels;
use datasheets::CoreAbility;
use datasheets::CrusadeRank;
use datasheets::CrusadeUpgrade;
use datasheets::Dice;
use datasheets::EditStats;
use datasheets::Range;
use datasheets::Unit;
use datasheets::UnitEditData;
use datasheets::UnitStats;
use datasheets::VariableValue;
use datasheets::Weapon;
use datasheets::WeaponAbility;
use datasheets::WeaponEditData;
use datasheets::WeaponMod;
use datasheets::WeaponModChange;
use datasheets::WeaponReference;

fn plasma() -> Weapon {
    Weapon {
        name: String::from("Plasma Pistol"),
        range: Range::Ranged(12),
        attacks: VariableValue::Fixed(1),
        skill: 3,
        strength: 7,
        ap: 2,
        damage: VariableValue::Rolled(1, Dice::D3, 0),
        keywords: vec![WeaponAbility::Pistol],
        charge: ChargeLevels::Parent(String::from("standard")),
    }
}

#[test]
fn edit_stats_round_trip() {
    let stats = UnitStats {
        movement: 6,
        toughness: 4,
        save: 3,
        invuln: Some(5),
        wounds: 2,
        leadership: 6,
        oc: 2,
    };
    let edit = EditStats::from_stats(&stats);
    assert!(edit.has_invuln);
    assert_eq!(edit.invuln, 5);
    let back = edit.to_stats();
    assert_eq!(back.movement, 6);
    assert_eq!(back.invuln, Some(5));
    assert_eq!(back.oc, 2);
}

#[test]
fn edit_stats_absent_invuln_edits_as_four() {
    let stats = UnitStats::default();
    let edit = EditStats::from_stats(&stats);
    assert!(!edit.has_invuln);
    assert_eq!(edit.invuln, 4);
    assert_eq!(edit.to_stats().invuln, None);
}

#[test]
fn weapon_edit_round_trip() {
    let w = plasma();
    let edit = WeaponEditData::from_weapon(&w);
    assert_eq!(edit.name, "Plasma Pistol");
    assert_eq!(edit.range, 12);
    assert_eq!(edit.attacks, "1");
    assert_eq!(edit.ap, 2);
    assert_eq!(edit.damage, "D3");
    let back = edit.to_weapon();
    assert!(back == w);
}

#[test]
fn weapon_edit_negative_ap_edits_as_magnitude() {
    let mut w = plasma();
    w.ap = -3;
    let edit = WeaponEditData::from_weapon(&w);
    assert_eq!(edit.ap, 3);
}

#[test]
fn weapon_edit_melee_edits_as_range_zero() {
    let mut w = plasma();
    w.range = Range::Melee;
    let edit = WeaponEditData::from_weapon(&w);
    assert_eq!(edit.range, 0);
    assert!(matches!(edit.to_weapon().range, Range::Melee));
}

#[test]
fn weapon_edit_invalid_text_falls_back_on_save() {
    let mut edit = WeaponEditData::from_weapon(&plasma());
    edit.attacks = String::from("not a value");
    edit.damage = String::from("2D6+");
    let back = edit.to_weapon();
    assert!(back.attacks == VariableValue::Fixed(0));
    assert!(back.damage == VariableValue::Fixed(0));
}

#[test]
fn weapon_edit_resynchronises_keyword_texts() {
    let mut edit = WeaponEditData::from_weapon(&plasma());
    edit.keywords = vec![
        WeaponAbility::Sustained(VariableValue::Fixed(9), String::from("D3")),
        WeaponAbility::RapidFire(VariableValue::Fixed(9), String::from("bad text")),
    ];
    let back = edit.to_weapon();
    assert!(
        back.keywords[0]
            == WeaponAbility::Sustained(
                VariableValue::Rolled(1, Dice::D3, 0),
                String::from("D3")
            )
    );
    assert!(
        back.keywords[1]
            == WeaponAbility::RapidFire(VariableValue::Fixed(1), String::from("1"))
    );
}

#[test]
fn weapon_edit_default_values() {
    let edit = WeaponEditData::default();
    assert_eq!(edit.name, "");
    assert_eq!(edit.range, 1);
    assert_eq!(edit.attacks, "1");
    assert_eq!(edit.skill, 1);
    assert_eq!(edit.strength, 1);
    assert_eq!(edit.ap, 0);
    assert_eq!(edit.damage, "1");
    assert!(!edit.charge_levels_info.0);
}

fn crusade_edit_unit() -> UnitEditData {
    let mut unit = Unit::default();
    unit.name = String::from("Veterans");
    unit.ranged_weapons = vec![(
        Weapon {
            name: String::from("Bolter"),
            range: Range::Ranged(24),
            attacks: VariableValue::Fixed(2),
            skill: 3,
            strength: 4,
            ap: 0,
            damage: VariableValue::Fixed(1),
            keywords: Vec::new(),
            charge: ChargeLevels::Standalone,
        },
        3,
    )];
    unit.crusade_unit = true;
    unit.crusade_data.exp = 7;
    unit.crusade_data.upgrades = vec![CrusadeUpgrade::WeaponMod(WeaponMod {
        name: String::from("Master-crafted Bolter"),
        change_one: WeaponModChange::Attacks,
        change_two: WeaponModChange::Strength,
        target: Some(WeaponReference::new(String::from("Bolter"), true, 0)),
    })];
    UnitEditData::from_unit(&unit, String::from("veterans.ron"))
}

#[test]
fn unit_edit_mirrors_the_unit() {
    let edit = crusade_edit_unit();
    assert_eq!(edit.name, "Veterans");
    assert_eq!(edit.filename, "veterans.ron");
    assert_eq!(edit.prev_filename, "veterans.ron");
    assert!(edit.crusader);
    assert_eq!(edit.ranged_weapons.len(), 1);
    assert_eq!(edit.ranged_weapons[0].0.name, "Bolter");
    assert_eq!(edit.ranged_weapons[0].1, 3);
    assert!(!edit.faction_ability.0);
    assert!(!edit.damaged.0);
    assert_eq!(edit.damaged.1, 4);
}

#[test]
fn unit_edit_save_runs_the_derivation() {
    let edit = crusade_edit_unit();
    let unit = edit.to_unit();
    assert_eq!(unit.crusade_weapons.0.len(), 2);
    assert_eq!(unit.crusade_weapons.0[0].0.name, "Master-crafted Bolter");
    assert_eq!(unit.crusade_weapons.0[0].1, 1);
    assert!(unit.crusade_weapons.0[0].0.attacks == VariableValue::Fixed(3));
    assert_eq!(unit.crusade_weapons.0[0].0.strength, 5);
    assert_eq!(unit.crusade_weapons.0[1].0.name, "Bolter");
    assert_eq!(unit.crusade_weapons.0[1].1, 2);
    // Experience 7 earns the second tier.
    assert!(unit.crusade_data.rank == CrusadeRank::Blooded);
    // The attached cache agrees with finalizing the saved unit.
    let (ranged, melee, rank) = finalize_crusade(&unit);
    assert!(unit.crusade_weapons.0 == ranged);
    assert!(unit.crusade_weapons.1 == melee);
    assert!(unit.crusade_data.rank == rank);
}

#[test]
fn unit_edit_save_sanitises_keywords() {
    let mut edit = crusade_edit_unit();
    edit.keywords = vec![
        String::from("aircraft"),
        String::from(""),
        String::from("Fly"),
    ];
    let unit = edit.to_unit();
    assert_eq!(unit.keywords, vec![String::from("AIRCRAFT"), String::from("FLY")]);
}

#[test]
fn unit_edit_save_resynchronises_core_abilities() {
    let mut edit = crusade_edit_unit();
    edit.core_abilities = vec![
        CoreAbility::Stealth,
        CoreAbility::DeadlyDemise(VariableValue::Fixed(9), String::from("D6")),
        CoreAbility::DeadlyDemise(VariableValue::Fixed(9), String::from("junk")),
    ];
    let unit = edit.to_unit();
    assert!(matches!(unit.core_abilities[0], CoreAbility::Stealth));
    match &unit.core_abilities[1] {
        CoreAbility::DeadlyDemise(v, t) => {
            assert!(*v == VariableValue::Rolled(1, Dice::D6, 0));
            assert_eq!(t, "D6");
        }
        _ => panic!("deadly demise expected"),
    }
    match &unit.core_abilities[2] {
        CoreAbility::DeadlyDemise(v, t) => {
            assert!(*v == VariableValue::Fixed(1));
            assert_eq!(t, "1");
        }
        _ => panic!("deadly demise expected"),
    }
}

#[test]
fn unit_edit_non_crusade_save_keeps_rank_and_empty_cache() {
    let mut edit = crusade_edit_unit();
    edit.crusader = false;
    edit.crusade_data.rank = CrusadeRank::Heroic;
    let unit = edit.to_unit();
    assert!(!unit.crusade_unit);
    assert!(unit.crusade_data.rank == CrusadeRank::Heroic);
    assert_eq!(unit.crusade_weapons.0.len(), 0);
    assert_eq!(unit.crusade_weapons.1.len(), 0);
}
