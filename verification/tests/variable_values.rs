use datasheets::Dice;
use datasheets::VariableValue;

#[test]
fn round_trip_rolled_with_bonus() {
    let v = VariableValue::Rolled(2, Dice::D6, 1);
    let text = v.to_string();
    assert_eq!(text, "2D6+1");
    assert_eq!(VariableValue::from_string(&text), Ok(v));
}

#[test]
fn round_trip_fixed() {
    let v = VariableValue::Fixed(5);
    let text = v.to_string();
    assert_eq!(text, "5");
    assert_eq!(VariableValue::from_string(&text), Ok(v));
}

#[test]
fn round_trip_bare_die() {
    let v = VariableValue::Rolled(1, Dice::D3, 0);
    let text = v.to_string();
    assert_eq!(text, "D3");
    assert_eq!(VariableValue::from_string(&text), Ok(v));
}

#[test]
fn round_trip_zero_count() {
    let v = VariableValue::Rolled(0, Dice::D6, 0);
    let text = v.to_string();
    assert_eq!(text, "0D6");
    assert_eq!(VariableValue::from_string(&text), Ok(v));
}

#[test]
fn round_trip_die_with_bonus() {
    let v = VariableValue::Rolled(1, Dice::D6, 5);
    let text = v.to_string();
    assert_eq!(text, "D6+5");
    assert_eq!(VariableValue::from_string(&text), Ok(v));
}

#[test]
fn grammar_rejects_invalid_texts() {
    assert!(!VariableValue::is_valid_variable_val("2d6"));
    assert!(!VariableValue::is_valid_variable_val("D6+"));
    assert!(!VariableValue::is_valid_variable_val("-3"));
    assert!(!VariableValue::is_valid_variable_val(""));
}

#[test]
fn grammar_accepts_valid_texts() {
    assert!(VariableValue::is_valid_variable_val("D3"));
    assert!(VariableValue::is_valid_variable_val("6"));
    assert!(VariableValue::is_valid_variable_val("3D6+2"));
}

#[test]
fn parse_dice_and_bonus() {
    assert_eq!(
        VariableValue::from_string("2D6+1"),
        Ok(VariableValue::Rolled(2, Dice::D6, 1))
    );
    assert_eq!(
        VariableValue::from_string("3D3+2"),
        Ok(VariableValue::Rolled(3, Dice::D3, 2))
    );
}

#[test]
fn parse_bare_die_counts_one() {
    assert_eq!(
        VariableValue::from_string("D3"),
        Ok(VariableValue::Rolled(1, Dice::D3, 0))
    );
    assert_eq!(
        VariableValue::from_string("D6+4"),
        Ok(VariableValue::Rolled(1, Dice::D6, 4))
    );
}

#[test]
fn parse_plain_number() {
    assert_eq!(VariableValue::from_string("5"), Ok(VariableValue::Fixed(5)));
    assert_eq!(VariableValue::from_string("007"), Ok(VariableValue::Fixed(7)));
}

#[test]
fn parse_rejects_bad_shapes() {
    assert!(VariableValue::from_string("2d6").is_err());
    assert!(VariableValue::from_string("D6+").is_err());
    assert!(VariableValue::from_string("-3").is_err());
    assert!(VariableValue::from_string("").is_err());
    assert!(VariableValue::from_string("2D4").is_err());
    assert!(VariableValue::from_string("1D6 ").is_err());
}

#[test]
fn parse_rejects_huge_numerals_the_grammar_accepts() {
    assert!(VariableValue::is_valid_variable_val("99999999999"));
    assert!(VariableValue::from_string("99999999999").is_err());
    assert!(VariableValue::from_string("99999999999D6").is_err());
    assert!(VariableValue::from_string("D6+99999999999").is_err());
    assert_eq!(
        VariableValue::from_string("4294967295"),
        Ok(VariableValue::Fixed(u32::MAX))
    );
}

#[test]
fn add_one_raises_fixed_value() {
    assert_eq!(
        VariableValue::Fixed(2).add_one(),
        VariableValue::Fixed(3)
    );
}

#[test]
fn add_one_raises_rolled_bonus() {
    assert_eq!(
        VariableValue::Rolled(2, Dice::D6, 0).add_one(),
        VariableValue::Rolled(2, Dice::D6, 1)
    );
}

#[test]
fn add_one_saturates_at_the_type_bound() {
    assert_eq!(
        VariableValue::Fixed(u32::MAX).add_one(),
        VariableValue::Fixed(u32::MAX)
    );
    assert_eq!(
        VariableValue::Rolled(2, Dice::D6, u32::MAX).add_one(),
        VariableValue::Rolled(2, Dice::D6, u32::MAX)
    );
}

#[test]
fn dice_names() {
    assert_eq!(Dice::D3.to_string(), "D3");
    assert_eq!(Dice::D6.to_string(), "D6");
}
