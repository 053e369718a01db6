use datasheets::finalize_crusade;
use datasheets::rank_for_exp;
use datasheets::ChargeLevels;
use datasheets::CrusadeRank;
use datasheets::CrusadeUnitData;
use datasheets::CrusadeUpgrade;
use datasheets::Range;
use datasheets::Unit;
use datasheets::VariableValue;
use datasheets::Weapon;
use datasheets::WeaponMod;
use datasheets::WeaponModChange;
use datasheets::WeaponReference;

fn bolter() -> Weapon {
    Weapon {
        name: String::from("Bolter"),
        range: Range::Ranged(24),
        attacks: VariableValue::Fixed(2),
        skill: 3,
        strength: 4,
        ap: 0,
        damage: VariableValue::Fixed(1),
        keywords: Vec::new(),
        charge: ChargeLevels::Standalone,
    }
}

fn sword() -> Weapon {
    Weapon {
        name: String::from("Sword"),
        range: Range::Melee,
        attacks: VariableValue::Fixed(3),
        skill: 3,
        strength: 4,
        ap: 1,
        damage: VariableValue::Fixed(1),
        keywords: Vec::new(),
        charge: ChargeLevels::Standalone,
    }
}

fn crusade_unit(
    ranged: Vec<(Weapon, u32)>,
    melee: Vec<(Weapon, u32)>,
    upgrades: Vec<CrusadeUpgrade>,
) -> Unit {
    let mut unit = Unit::default();
    unit.name = String::from("Test Unit");
    unit.ranged_weapons = ranged;
    unit.melee_weapons = melee;
    unit.crusade_unit = true;
    unit.crusade_data = CrusadeUnitData {
        exp: 0,
        rank: CrusadeRank::BattleReady,
        upgrades,
        kills: 0,
    };
    unit
}

fn targeted_mod(name: &str, one: WeaponModChange, two: WeaponModChange, ranged: bool, id: usize) -> CrusadeUpgrade {
    CrusadeUpgrade::WeaponMod(WeaponMod {
        name: String::from(name),
        change_one: one,
        change_two: two,
        target: Some(WeaponReference::new(String::from(""), ranged, id)),
    })
}

#[test]
fn rank_boundaries() {
    assert!(rank_for_exp(0) == CrusadeRank::BattleReady);
    assert!(rank_for_exp(5) == CrusadeRank::BattleReady);
    assert!(rank_for_exp(6) == CrusadeRank::Blooded);
    assert!(rank_for_exp(15) == CrusadeRank::Blooded);
    assert!(rank_for_exp(16) == CrusadeRank::BattleHardended);
    assert!(rank_for_exp(30) == CrusadeRank::BattleHardended);
    assert!(rank_for_exp(31) == CrusadeRank::Heroic);
    assert!(rank_for_exp(50) == CrusadeRank::Heroic);
    assert!(rank_for_exp(51) == CrusadeRank::Legendary);
    assert!(rank_for_exp(u32::MAX) == CrusadeRank::Legendary);
}

#[test]
fn derivation_conserves_counts() {
    // A weapon of count 5 and an upgrade applied twice: two buckets summing
    // to 5, the upgraded one first.
    let up = targeted_mod("Improved Bolter", WeaponModChange::Attacks, WeaponModChange::AP, true, 0);
    let unit = crusade_unit(
        vec![(bolter(), 5)],
        Vec::new(),
        vec![up.clone(), up],
    );
    let (ranged, melee, _) = finalize_crusade(&unit);
    assert_eq!(melee.len(), 0);
    assert_eq!(ranged.len(), 2);
    assert_eq!(ranged[0].1, 2);
    assert_eq!(ranged[0].0.name, "Improved Bolter");
    assert_eq!(ranged[1].1, 3);
    assert_eq!(ranged[1].0.name, "Bolter");
    assert_eq!(ranged[0].1 + ranged[1].1, 5);
}

#[test]
fn end_to_end_master_crafted_bolter() {
    let up = targeted_mod(
        "Master-crafted Bolter",
        WeaponModChange::Attacks,
        WeaponModChange::Strength,
        true,
        0,
    );
    let unit = crusade_unit(vec![(bolter(), 3)], Vec::new(), vec![up]);
    let (ranged, _, _) = finalize_crusade(&unit);

    let mut upgraded = bolter();
    upgraded.name = String::from("Master-crafted Bolter");
    upgraded.attacks = VariableValue::Fixed(3);
    upgraded.strength = 5;
    assert_eq!(ranged.len(), 2);
    assert!(ranged[0].0 == upgraded);
    assert_eq!(ranged[0].1, 1);
    assert!(ranged[1].0 == bolter());
    assert_eq!(ranged[1].1, 2);
}

#[test]
fn finalize_is_deterministic_on_canonical_input() {
    let up = targeted_mod("Relic Blade", WeaponModChange::Damage, WeaponModChange::Skill, false, 0);
    let mut unit = crusade_unit(Vec::new(), vec![(sword(), 4)], vec![up]);
    unit.crusade_data.exp = 20;
    let first = finalize_crusade(&unit);
    let second = finalize_crusade(&unit);
    assert!(first.0 == second.0);
    assert!(first.1 == second.1);
    assert!(first.2 == second.2);
    // The derived cache plays no part: fill it with nonsense and re-run.
    unit.crusade_weapons = (vec![(bolter(), 99)], Vec::new());
    let third = finalize_crusade(&unit);
    assert!(first.0 == third.0);
    assert!(first.1 == third.1);
    assert!(first.2 == third.2);
}

#[test]
fn finalize_skips_non_crusade_units() {
    let mut unit = crusade_unit(vec![(bolter(), 3)], Vec::new(), Vec::new());
    unit.crusade_unit = false;
    unit.crusade_data.exp = 40;
    unit.crusade_data.rank = CrusadeRank::Blooded;
    let (ranged, melee, rank) = finalize_crusade(&unit);
    assert_eq!(ranged.len(), 0);
    assert_eq!(melee.len(), 0);
    // The stored rank passes through untouched for non-crusade units.
    assert!(rank == CrusadeRank::Blooded);
}

#[test]
fn finalize_recomputes_rank_for_crusade_units() {
    let mut unit = crusade_unit(Vec::new(), Vec::new(), Vec::new());
    unit.crusade_data.exp = 16;
    unit.crusade_data.rank = CrusadeRank::Legendary;
    let (_, _, rank) = finalize_crusade(&unit);
    assert!(rank == CrusadeRank::BattleHardended);
}

#[test]
fn melee_upgrades_stay_in_the_melee_list() {
    let up = targeted_mod("Honed Sword", WeaponModChange::Strength, WeaponModChange::AP, false, 0);
    let unit = crusade_unit(vec![(bolter(), 1)], vec![(sword(), 2)], vec![up]);
    let (ranged, melee, _) = finalize_crusade(&unit);
    assert_eq!(ranged.len(), 1);
    assert_eq!(ranged[0].0.name, "Bolter");
    assert_eq!(melee.len(), 2);
    assert_eq!(melee[0].0.name, "Honed Sword");
    assert_eq!(melee[0].1, 1);
    // AP magnitude grows away from zero: stored 1 becomes 2.
    assert_eq!(melee[0].0.ap, 2);
    assert_eq!(melee[0].0.strength, 5);
    assert_eq!(melee[1].0.name, "Sword");
    assert_eq!(melee[1].1, 1);
}

#[test]
fn skill_upgrade_lowers_the_roll() {
    let up = targeted_mod("Sharpened", WeaponModChange::Skill, WeaponModChange::Damage, false, 0);
    let unit = crusade_unit(Vec::new(), vec![(sword(), 1)], vec![up]);
    let (_, melee, _) = finalize_crusade(&unit);
    assert_eq!(melee.len(), 1);
    assert_eq!(melee[0].0.skill, 2);
    assert!(melee[0].0.damage == VariableValue::Fixed(2));
}

#[test]
fn precise_upgrade_appends_keyword() {
    let up = targeted_mod("Marksman Bolter", WeaponModChange::Precise, WeaponModChange::Attacks, true, 0);
    let unit = crusade_unit(vec![(bolter(), 1)], Vec::new(), vec![up]);
    let (ranged, _, _) = finalize_crusade(&unit);
    assert_eq!(ranged.len(), 1);
    assert_eq!(ranged[0].0.keywords.len(), 1);
    assert!(ranged[0].0.keywords[0] == datasheets::WeaponAbility::Precise);
}

#[test]
fn upgrade_with_deleted_target_has_no_effect() {
    let up = targeted_mod("Ghost Mod", WeaponModChange::Attacks, WeaponModChange::AP, true, 7);
    let unit = crusade_unit(vec![(bolter(), 2)], Vec::new(), vec![up]);
    let (ranged, _, _) = finalize_crusade(&unit);
    assert_eq!(ranged.len(), 1);
    assert!(ranged[0].0 == bolter());
    assert_eq!(ranged[0].1, 2);
}

#[test]
fn child_weapons_match_through_their_parent_reference() {
    let mut parent = bolter();
    parent.name = String::from("Plasma Gun");
    parent.charge = ChargeLevels::Parent(String::from("standard"));
    let mut child = bolter();
    child.name = String::from("Plasma Gun");
    child.charge = ChargeLevels::Child(
        WeaponReference::new(String::from("Plasma Gun"), true, 0),
        String::from("overcharge"),
    );
    let up = targeted_mod("Plasma Gun+", WeaponModChange::Attacks, WeaponModChange::AP, true, 0);
    let unit = crusade_unit(vec![(parent, 1), (child, 1)], Vec::new(), vec![up]);
    let (ranged, _, _) = finalize_crusade(&unit);
    assert_eq!(ranged.len(), 2);
    // The parent's upgraded entry keeps its parent role under the new name.
    assert_eq!(ranged[0].0.name, "Plasma Gun+");
    assert!(matches!(ranged[0].0.charge, ChargeLevels::Parent(_)));
    // The child also matches (through its parent reference) and its stale
    // reference is re-pointed at the parent's new name.
    assert_eq!(ranged[1].0.name, "Plasma Gun+");
    match &ranged[1].0.charge {
        ChargeLevels::Child(reference, level) => {
            assert_eq!(reference.name, "Plasma Gun+");
            assert!(reference.ranged);
            assert_eq!(reference.id, 0);
            assert_eq!(level, "overcharge");
        }
        _ => panic!("child charge expected"),
    }
}

#[test]
fn skill_upgrade_saturates_at_zero() {
    let mut w = sword();
    w.skill = 0;
    let up = targeted_mod("Blunt", WeaponModChange::Skill, WeaponModChange::AP, false, 0);
    let unit = crusade_unit(Vec::new(), vec![(w, 1)], vec![up]);
    let (_, melee, _) = finalize_crusade(&unit);
    assert_eq!(melee[0].0.skill, 0);
}

#[test]
fn upgrades_apply_in_list_order_until_counts_run_out() {
    let first = targeted_mod("First", WeaponModChange::Attacks, WeaponModChange::AP, true, 0);
    let second = targeted_mod("Second", WeaponModChange::Skill, WeaponModChange::Damage, true, 0);
    let unit = crusade_unit(
        vec![(bolter(), 3)],
        Vec::new(),
        vec![first.clone(), second, first],
    );
    let (ranged, _, _) = finalize_crusade(&unit);
    // "First" was applied twice, "Second" once; 3 copies cover both.
    assert_eq!(ranged.len(), 2);
    assert_eq!(ranged[0].0.name, "First");
    assert_eq!(ranged[0].1, 2);
    assert_eq!(ranged[1].0.name, "Second");
    assert_eq!(ranged[1].1, 1);
}
