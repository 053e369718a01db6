use datasheets::ChargeLevels;
use datasheets::ExportType;
use datasheets::CoreAbility;
use datasheets::CrusadeRank;
use datasheets::Dice;
use datasheets::Range;
use datasheets::VariableValue;
use datasheets::Weapon;
use datasheets::WeaponAbility;

fn bolter() -> Weapon {
    Weapon {
        name: String::from("Bolter"),
        range: Range::Ranged(24),
        attacks: VariableValue::Fixed(2),
        skill: 3,
        strength: 4,
        ap: 0,
        damage: VariableValue::Fixed(1),
        keywords: Vec::new(),
        charge: ChargeLevels::Standalone,
    }
}

#[test]
fn range_strings() {
    assert_eq!(Range::Melee.to_string(), "Melee");
    assert_eq!(Range::Ranged(24).to_string(), "24\"");
}

#[test]
fn render_data_of_plain_weapon() {
    let w = bolter();
    let r = w.get_render_data();
    assert_eq!(r.0, "Bolter");
    assert_eq!(r.1, "24\"");
    assert_eq!(r.2, "2");
    assert_eq!(r.3, "3+");
    assert_eq!(r.4, 4);
    assert_eq!(r.5, "0");
    assert_eq!(r.6, "1");
    assert_eq!(r.7, "[]");
}

#[test]
fn render_data_ap_shows_penalty_sign() {
    let mut w = bolter();
    w.ap = 2;
    assert_eq!(w.get_render_data().5, "-2");
    w.ap = -1;
    assert_eq!(w.get_render_data().5, "-1");
}

#[test]
fn render_data_torrent_hides_skill() {
    let mut w = bolter();
    w.keywords = vec![WeaponAbility::Torrent];
    assert_eq!(w.get_render_data().3, "N/A");
}

#[test]
fn format_keywords_empty_cases() {
    let mut w = bolter();
    assert_eq!(w.format_keywords(), "[]");
    w.keywords = vec![WeaponAbility::NoAbility];
    assert_eq!(w.format_keywords(), "[]");
    w.keywords = vec![WeaponAbility::NoAbility, WeaponAbility::NoAbility];
    assert_eq!(w.format_keywords(), "[]");
}

#[test]
fn format_keywords_joins_with_commas() {
    let mut w = bolter();
    w.keywords = vec![
        WeaponAbility::Assault,
        WeaponAbility::NoAbility,
        WeaponAbility::Lethal,
        WeaponAbility::Melta(2),
    ];
    assert_eq!(w.format_keywords(), "[ASSAULT, LETHAL, MELTA 2]");
}

#[test]
fn keyword_render_strings() {
    assert_eq!(WeaponAbility::Assault.to_string(), "ASSAULT");
    assert_eq!(WeaponAbility::IgnoresCover.to_string(), "IGNORES COVER");
    assert_eq!(WeaponAbility::TwinLinked.to_string(), "TWIN-LINKED");
    assert_eq!(WeaponAbility::Indirect.to_string(), "INDIRECT FIRE");
    assert_eq!(WeaponAbility::Dev.to_string(), "DEVASTATING WOUNDS");
    assert_eq!(
        WeaponAbility::Sustained(VariableValue::Fixed(1), String::from("1")).to_string(),
        "SUSTAINED HITS 1"
    );
    assert_eq!(
        WeaponAbility::RapidFire(
            VariableValue::Rolled(1, Dice::D3, 0),
            String::from("D3")
        )
        .to_string(),
        "RAPID FIRE D3"
    );
    assert_eq!(WeaponAbility::Custom(String::from("my rule")).to_string(), "my rule");
    assert_eq!(WeaponAbility::NoAbility.to_string(), "");
}

#[test]
fn anti_keyword_clamps_threshold() {
    assert_eq!(
        WeaponAbility::AntiX(String::from("INFANTRY"), 9).to_string(),
        "ANTI-INFANTRY 6+"
    );
    assert_eq!(
        WeaponAbility::AntiX(String::from("VEHICLE"), 1).to_string(),
        "ANTI-VEHICLE 2+"
    );
    assert_eq!(
        WeaponAbility::AntiX(String::from("FLY"), 4).to_string(),
        "ANTI-FLY 4+"
    );
}

#[test]
fn core_ability_strings() {
    assert_eq!(CoreAbility::DeepStrike.to_string(), "Deep Strike");
    assert_eq!(CoreAbility::Scouts(6).to_string(), "Scouts 6\"");
    assert_eq!(CoreAbility::FiringDeck(11).to_string(), "Firing Deck 11");
    assert_eq!(CoreAbility::FeelnoPain(5).to_string(), "Feel no Pain 5+");
    assert_eq!(
        CoreAbility::DeadlyDemise(
            VariableValue::Rolled(1, Dice::D3, 0),
            String::from("D3")
        )
        .to_string(),
        "Deadly Demise D3"
    );
    assert_eq!(CoreAbility::LoneOp.to_string(), "Lone Operative");
    assert_eq!(CoreAbility::NoAbility.to_string(), "");
}

#[test]
fn rank_strings() {
    assert_eq!(CrusadeRank::BattleReady.to_string(), "Battle-ready");
    assert_eq!(CrusadeRank::Blooded.to_string(), "Blooded");
    assert_eq!(CrusadeRank::BattleHardended.to_string(), "Battle-hardened");
    assert_eq!(CrusadeRank::Heroic.to_string(), "Heroic");
    assert_eq!(CrusadeRank::Legendary.to_string(), "Legendary");
}

#[test]
fn export_type_names_and_extensions() {
    assert_eq!(ExportType::PDF.to_string(), "PDF");
    assert_eq!(ExportType::LATEX.to_string(), "LaTeX");
    assert_eq!(ExportType::HTML.to_string(), "HTML");
    assert_eq!(ExportType::PDF.get_extensions(), ["pdf"]);
    assert_eq!(ExportType::LATEX.get_extensions(), ["tex"]);
    assert_eq!(ExportType::HTML.get_extensions(), ["html"]);
}

#[test]
fn html_data_lists_keyword_strings() {
    let mut w = bolter();
    w.keywords = vec![
        WeaponAbility::Assault,
        WeaponAbility::NoAbility,
        WeaponAbility::Heavy,
    ];
    let r = w.to_html_data();
    assert_eq!(r.0, "Bolter");
    assert_eq!(r.7, vec![String::from("ASSAULT"), String::from("HEAVY")]);
}
