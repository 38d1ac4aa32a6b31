use std::str::FromStr;

use unit_convert::dimension::display::stringify_units;
use unit_convert::dimension::{Dimensions, Direction, ParseError, Step, Unit};
use unit_convert::units::derived::constant;
use unit_convert::units::{length, mass, time, Decimal, Space, UnitTable};

fn units_of(text: &str) -> Vec<Unit> {
    let table = UnitTable::standard();
    Dimensions::parse(text, &table).unwrap().units().clone()
}

#[test]
fn mod_test_dimensions() {
    let a = "m/s^2";
    let b = "m/(s*s)";
    let c = "m/s/s";

    let a = Dimensions::from_str(a).unwrap();
    for i in &[b, c] {
        let j = Dimensions::from_str(i).unwrap();
        assert_eq!(a, j, "Failed on: `{i}`");
    }
}

#[test]
fn dimension_test_dimensions() {
    let a = "m/s^2";
    let b = "m/(s*s)";
    let c = "m/s/s";

    let a = Dimensions::from_str(a).unwrap();
    for i in &[b, c] {
        let j = Dimensions::from_str(i).unwrap();
        assert_eq!(a, j, "Failed on: `{i}`");
        assert!(a.equals(&j), "Failed on: `{i}`");
        assert!(j.equals(&a), "Failed on: `{i}`");
    }
}

#[test]
fn from_str_reads_with_the_standard_table() {
    let table = UnitTable::standard();
    for text in ["kWh/J", "mph", "lbf*psi", "m s", "zz", ""] {
        let with_table = Dimensions::parse(text, &table);
        let by_itself = Dimensions::from_str(text);
        match (with_table, by_itself) {
            (Ok(a), Ok(b)) => assert_eq!(a.units(), b.units(), "{text}"),
            (Err(a), Err(b)) => assert_eq!(a, b, "{text}"),
            _ => panic!("{text}"),
        }
    }
}

#[test]
fn equivalent_expressions_expand_to_the_same_space_powers() {
    let table = UnitTable::standard();
    for text in ["m/s^2", "m/(s*s)", "m/s/s"] {
        let dimensions = Dimensions::parse(text, &table).unwrap();
        assert_eq!(dimensions.get_space(Space::Length), Some(1), "{text}");
        assert_eq!(dimensions.get_space(Space::Time), Some(-2), "{text}");
        assert_eq!(dimensions.get_space(Space::Mass), None, "{text}");
        assert_eq!(dimensions.as_base_units(), "[length]^1 [time]^-2", "{text}");
    }
}

#[test]
fn parse_lists_the_units_in_order() {
    assert_eq!(
        units_of("m/s^2"),
        vec![
            Unit { conversion: length::meter(), power: 1, sci_exponent: 0 },
            Unit { conversion: time::second(), power: -2, sci_exponent: 0 },
        ]
    );
    assert_eq!(
        units_of("m/s/s"),
        vec![
            Unit { conversion: length::meter(), power: 1, sci_exponent: 0 },
            Unit { conversion: time::second(), power: -1, sci_exponent: 0 },
            Unit { conversion: time::second(), power: -1, sci_exponent: 0 },
        ]
    );
    assert_eq!(
        units_of("km/ms"),
        vec![
            Unit { conversion: length::meter(), power: 1, sci_exponent: 3 },
            Unit { conversion: time::second(), power: -1, sci_exponent: -3 },
        ]
    );
}

#[test]
fn newton_equals_its_expansion() {
    let table = UnitTable::standard();
    let newton = Dimensions::parse("N", &table).unwrap();
    let spelled = Dimensions::parse("kg*m/s^2", &table).unwrap();
    let shuffled = Dimensions::parse("m/s^2*kg", &table).unwrap();
    assert!(newton.equals(&spelled));
    assert!(spelled.equals(&newton));
    assert!(newton.equals(&shuffled));
    assert!(newton == spelled);
}

#[test]
fn equality_leaves_special_units_out() {
    let table = UnitTable::standard();
    let pound_force = Dimensions::parse("lbf", &table).unwrap();
    let newton = Dimensions::parse("N", &table).unwrap();
    assert!(pound_force.units().iter().any(|unit| unit.is_special()));
    assert!(pound_force.equals(&newton));
}

#[test]
fn equality_needs_the_same_spaces_and_powers() {
    let table = UnitTable::standard();
    let speed = Dimensions::parse("m/s", &table).unwrap();
    let acceleration = Dimensions::parse("m/s^2", &table).unwrap();
    let length_only = Dimensions::parse("m", &table).unwrap();
    let cancelled = Dimensions::parse("m*s/s", &table).unwrap();
    assert!(!speed.equals(&acceleration));
    assert!(!speed.equals(&length_only));
    // a space whose powers cancel still counts as present
    assert!(!cancelled.equals(&length_only));
    assert_eq!(cancelled.get_space(Space::Time), Some(0));
    assert!(speed.equals(&Dimensions::parse("mph", &table).unwrap()));
    assert!(speed != acceleration);
}

#[test]
fn parse_errors() {
    let table = UnitTable::standard();
    let failure = |text: &str| Dimensions::parse(text, &table).unwrap_err();
    assert_eq!(failure("m/("), ParseError::UnclosedParenthesis);
    assert_eq!(failure(")"), ParseError::UnmatchedParenthesis);
    assert_eq!(
        failure("xyz123notaunit"),
        ParseError::InvalidToken("xyz123notaunit".to_string())
    );
    assert_eq!(failure("m s"), ParseError::MissingOperator);
    assert_eq!(failure("m^s"), ParseError::InvalidExponent);
    assert_eq!(failure(""), ParseError::MissingOperand);
    assert_eq!(failure("m/"), ParseError::MissingOperand);
    assert_eq!(failure("/m"), ParseError::MissingOperand);
    assert_eq!(failure("2"), ParseError::UnexpectedNumber);
    assert_eq!(failure("2*m"), ParseError::UnexpectedNumber);
    assert_eq!(
        failure("m^4000000000^4000000000"),
        ParseError::ExponentOverflow
    );
    assert_eq!(
        failure("m^9223372036854775807*m"),
        ParseError::ExponentOverflow
    );
}

#[test]
fn error_messages() {
    assert_eq!(ParseError::UnmatchedParenthesis.message(), "Unmatched closing parenthesis");
    assert_eq!(ParseError::UnclosedParenthesis.message(), "Unmatched opening parenthesis");
    assert_eq!(
        ParseError::InvalidToken("xyz".to_string()).message(),
        "Invalid token: xyz"
    );
    assert_eq!(ParseError::MissingOperator.message(), "Missing operator in expression");
    assert_eq!(ParseError::MissingOperand.message(), "Missing operand in expression");
    assert_eq!(ParseError::UnexpectedNumber.message(), "Unexpected number in expression");
    assert_eq!(
        ParseError::InvalidExponent.message(),
        "Invalid exponent. (Expected number literal)"
    );
    assert_eq!(ParseError::ExponentOverflow.message(), "Exponent out of range");
}

#[test]
fn new_checks_the_limit() {
    let meter = |power: i64, sci_exponent: i64| Unit { conversion: length::meter(), power, sci_exponent };
    assert!(Dimensions::new(vec![]).is_ok());
    assert!(Dimensions::new(vec![meter(i64::MAX, 0)]).is_ok());
    assert!(Dimensions::new(vec![meter(-i64::MAX, i64::MAX)]).is_ok());
    assert_eq!(
        Dimensions::new(vec![meter(i64::MIN, 0)]).unwrap_err(),
        ParseError::ExponentOverflow
    );
    assert_eq!(
        Dimensions::new(vec![meter(i64::MAX, 0), meter(-1, 0)]).unwrap_err(),
        ParseError::ExponentOverflow
    );
    assert_eq!(
        Dimensions::new(vec![meter(1, i64::MAX), meter(1, 1)]).unwrap_err(),
        ParseError::ExponentOverflow
    );
}

#[test]
fn simplify_merges_by_space() {
    let table = UnitTable::standard();
    let dimensions = Dimensions::parse("km/s/ms*cm", &table).unwrap();
    let simple = dimensions.simplify();
    assert_eq!(
        simple.units().clone(),
        vec![
            Unit { conversion: length::meter(), power: 2, sci_exponent: 1 },
            Unit { conversion: time::second(), power: -2, sci_exponent: -3 },
        ]
    );
}

#[test]
fn simplify_keeps_the_first_unit_of_a_space() {
    let table = UnitTable::standard();
    let simple = Dimensions::parse("mi/h*km", &table).unwrap().simplify();
    assert_eq!(
        simple.units().clone(),
        vec![
            Unit { conversion: length::statute_mile(), power: 2, sci_exponent: 3 },
            Unit { conversion: time::hour(), power: -1, sci_exponent: 0 },
        ]
    );
}

#[test]
fn simplify_twice_is_simplify_once() {
    let table = UnitTable::standard();
    for text in ["m/s^2", "kWh/J", "N*m/(kg*s)", "lbf*psi", "km/h/mph"] {
        let once = Dimensions::parse(text, &table).unwrap().simplify();
        let twice = once.simplify();
        assert_eq!(once.units(), twice.units(), "{text}");
    }
}

#[test]
fn convert_lists_the_steps() {
    let table = UnitTable::standard();
    let from = Dimensions::parse("km/h", &table).unwrap();
    let to = Dimensions::parse("mi/s^2", &table).unwrap();
    assert_eq!(
        from.convert(&to),
        vec![
            Step { conversion: length::meter(), direction: Direction::ToBase, times: 1, scale: 3 },
            Step { conversion: time::hour(), direction: Direction::FromBase, times: 1, scale: 0 },
            Step {
                conversion: length::statute_mile(),
                direction: Direction::FromBase,
                times: 1,
                scale: 0
            },
            Step { conversion: time::second(), direction: Direction::ToBase, times: 2, scale: 0 },
        ]
    );
}

#[test]
fn convert_scale_follows_the_sign_of_the_power() {
    let second = |power: i64, sci_exponent: i64| Unit { conversion: time::second(), power, sci_exponent };
    let from = Dimensions::new(vec![second(-2, -3), second(0, 5)]).unwrap();
    let to = Dimensions::new(vec![second(-1, 6), second(3, -9)]).unwrap();
    assert_eq!(
        from.convert(&to),
        vec![
            Step { conversion: time::second(), direction: Direction::FromBase, times: 2, scale: 3 },
            Step { conversion: time::second(), direction: Direction::ToBase, times: 0, scale: 5 },
            Step { conversion: time::second(), direction: Direction::ToBase, times: 1, scale: 6 },
            Step { conversion: time::second(), direction: Direction::FromBase, times: 3, scale: 9 },
        ]
    );
}

#[test]
fn units_as_text() {
    let table = UnitTable::standard();
    let dimensions = Dimensions::parse("lbf/s^2*km^-12", &table).unwrap();
    assert_eq!(
        dimensions.to_string(),
        "[gram] [meter] [second]\u{207b}\u{b2} [second]\u{207b}\u{b2} [meter]\u{207b}\u{b9}\u{b2}"
    );
    assert_eq!(
        dimensions.simplify().to_space_string(),
        "[mass] [length]\u{207b}\u{b9}\u{b9} [time]\u{207b}\u{2074}"
    );
    assert_eq!(dimensions.as_base_units(), "[length]^-11 [mass]^1 [time]^-4");
    assert_eq!(Dimensions::new(vec![]).unwrap().to_string(), "");
    let unit = Unit { conversion: length::meter(), power: 1034567890, sci_exponent: 0 };
    assert_eq!(
        unit.to_string(),
        "[meter]\u{b9}\u{2070}\u{b3}\u{2074}\u{2075}\u{2076}\u{2077}\u{2078}\u{2079}\u{2070}"
    );
    assert_eq!(unit.to_space_string().chars().take(8).collect::<String>(), "[length]");
    let unit = Unit { conversion: length::meter(), power: 1, sci_exponent: 7 };
    assert_eq!(unit.to_string(), "[meter]");
    let unit = Unit { conversion: length::meter(), power: 0, sci_exponent: 0 };
    assert_eq!(unit.to_string(), "[meter]\u{2070}");
}

#[test]
fn stringify_units_skips_special_units() {
    let units = vec![
        constant(Decimal { mantissa: 37, exponent: 9 }, 0),
        Unit::new(mass::gram(), 1, 3),
        constant(Decimal { mantissa: 1, exponent: 0 }, 3),
        Unit::new(time::second(), -1, 0),
    ];
    assert_eq!(stringify_units(&units), "[gram] [second]\u{207b}\u{b9}");
    assert_eq!(stringify_units(&units[..1]), "");
    assert_eq!(stringify_units(&[]), "");
}

#[test]
fn simplify_keeps_what_dimensions_compare_as() {
    let table = UnitTable::standard();
    for text in ["m/s^2", "kWh/J", "N*m/(kg*s)", "lbf*psi", "km/h/mph", "m*s/s"] {
        let dimensions = Dimensions::parse(text, &table).unwrap();
        let simple = dimensions.simplify();
        assert!(simple.equals(&dimensions), "{text}");
        assert_eq!(simple.as_base_units(), dimensions.as_base_units(), "{text}");
    }
}
