use datasheets::strip_path;
use datasheets::ChargeLevels;
use datasheets::Range;
use datasheets::Unit;
use datasheets::VariableValue;
use datasheets::Weapon;

fn sample_unit() -> Unit {
    let mut unit = Unit::default();
    unit.name = String::from("Intercessors");
    unit.stats.movement = 6;
    unit.ranged_weapons = vec![(
        Weapon {
            name: String::from("Bolt Rifle"),
            range: Range::Ranged(30),
            attacks: VariableValue::Fixed(2),
            skill: 3,
            strength: 4,
            ap: 1,
            damage: VariableValue::Fixed(1),
            keywords: Vec::new(),
            charge: ChargeLevels::Standalone,
        },
        5,
    )];
    unit
}

#[test]
fn movement_of_a_ground_unit() {
    let unit = sample_unit();
    assert_eq!(unit.get_movement(), "6");
}

#[test]
fn movement_of_an_aircraft() {
    let mut unit = sample_unit();
    unit.keywords = vec![String::from("AIRCRAFT")];
    assert_eq!(unit.get_movement(), "20+");
}

#[test]
fn weapon_render_lists() {
    let unit = sample_unit();
    let ranged = unit.get_ranged_weapon_list();
    assert_eq!(ranged.len(), 1);
    assert_eq!(ranged[0].0, "Bolt Rifle");
    assert_eq!(ranged[0].1, "30\"");
    assert_eq!(ranged[0].5, "-1");
    assert_eq!(unit.get_melee_weapon_list().len(), 0);
}

#[test]
fn export_paths() {
    let unit = sample_unit();
    let dir = String::from("out/cards");
    assert_eq!(unit.get_html_path(&dir), "out/cards/Intercessors.html");
    assert_eq!(unit.get_pdf_path(&dir), "out/cards/Intercessors.pdf");
}

#[test]
fn strip_path_drops_the_last_component() {
    assert_eq!(strip_path(&String::from("a/b/c.ron")), "a/b");
    assert_eq!(strip_path(&String::from("cards/unit.ron")), "cards");
    assert_eq!(strip_path(&String::from("plain.ron")), "");
    assert_eq!(strip_path(&String::from("")), "");
    assert_eq!(strip_path(&String::from("a/b/")), "a/b");
}

#[test]
fn default_unit_is_empty_and_not_crusade() {
    let unit = Unit::default();
    assert_eq!(unit.name, "");
    assert_eq!(unit.ranged_weapons.len(), 0);
    assert_eq!(unit.melee_weapons.len(), 0);
    assert!(!unit.crusade_unit);
    assert_eq!(unit.crusade_data.exp, 0);
    assert_eq!(unit.crusade_data.upgrades.len(), 0);
    assert_eq!(unit.core_abilities.len(), 1);
    assert_eq!(unit.crusade_weapons.0.len(), 0);
    assert_eq!(unit.crusade_weapons.1.len(), 0);
}
