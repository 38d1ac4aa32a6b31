use unit_convert::args::Args;
use unit_convert::conversion::{convert, plan, ConversionError};
use unit_convert::dimension::{Direction, ParseError, Step};
use unit_convert::input::{Input, InputError};
use unit_convert::listing::{derived_units_of, get_derived_units, get_units, units_of};
use unit_convert::units::{length, time, UnitTable};

fn ask(input: &str) -> Args {
    Args { input: input.to_string(), debug: false, dimensions: false }
}

fn parts(value: &str, from_unit: &str, to_unit: &str) -> Result<Input, InputError> {
    Ok(Input {
        value: value.to_string(),
        from_unit: from_unit.to_string(),
        to_unit: to_unit.to_string(),
    })
}

#[test]
fn input_in_three_parts() {
    assert_eq!(Input::parse("10m/s => mi/h"), parts("10", "m/s", "mi/h"));
    assert_eq!(Input::parse("10 m/s^3 => yard/s^3"), parts("10", "m/s^3", "yard/s^3"));
    assert_eq!(
        Input::parse("1E2 footcandle to hefnerkerze*rad/ft^2"),
        parts("1E2", "footcandle", "hefnerkerze*rad/ft^2")
    );
    assert_eq!(Input::parse("  -2.5e-3   km=>m  "), parts("-2.5e-3", "km", "m"));
    assert_eq!(Input::parse("10eV => J"), parts("10", "eV", "J"));
    assert_eq!(Input::parse("10e+ => J"), parts("10", "e+", "J"));
    assert_eq!(Input::parse(".5m => cm"), parts(".5", "m", "cm"));
    assert_eq!(Input::parse("5.m => cm"), parts("5.", "m", "cm"));
    assert_eq!(Input::parse("+7 => "), parts("+7", "", ""));
    assert_eq!(Input::parse("1 a to b to c"), parts("1", "a", "b to c"));
    assert_eq!(Input::parse("1 a to b => c"), parts("1", "a", "b => c"));
}

#[test]
fn input_refused() {
    assert_eq!(Input::parse("10 m/s"), Err(InputError::MissingSeparator));
    assert_eq!(Input::parse(""), Err(InputError::MissingSeparator));
    assert_eq!(Input::parse("10 m to"), Err(InputError::MissingSeparator));
    assert_eq!(Input::parse("m/s => mi/h"), Err(InputError::MissingValue));
    assert_eq!(Input::parse(". m => cm"), Err(InputError::MissingValue));
    assert_eq!(Input::parse("- 1 m => cm"), Err(InputError::MissingValue));
    assert_eq!(Input::parse(" => cm"), Err(InputError::MissingValue));
}

#[test]
fn plan_of_a_request() {
    let table = UnitTable::standard();
    let made = plan(&ask("10 km/h => mi/s"), &table).unwrap();
    assert_eq!(made.value, "10");
    assert_eq!(made.from_unit, "km/h");
    assert_eq!(made.to_unit, "mi/s");
    assert_eq!(made.leaving, 2);
    assert_eq!(made.dimensions, None);
    assert!(!made.debug);
    assert_eq!(
        made.steps,
        vec![
            Step { conversion: length::meter(), direction: Direction::ToBase, times: 1, scale: 3 },
            Step { conversion: time::hour(), direction: Direction::FromBase, times: 1, scale: 0 },
            Step {
                conversion: length::statute_mile(),
                direction: Direction::FromBase,
                times: 1,
                scale: 0
            },
            Step { conversion: time::second(), direction: Direction::ToBase, times: 1, scale: 0 },
        ]
    );
}

#[test]
fn plan_with_dimensions_and_debug() {
    let table = UnitTable::standard();
    let args = Args { input: "1 N*m/s => W".to_string(), debug: true, dimensions: true };
    let made = plan(&args, &table).unwrap();
    assert!(made.debug);
    assert_eq!(
        made.dimensions,
        Some("[mass] [length]\u{b2} [time]\u{207b}\u{b3}".to_string())
    );
}

#[test]
fn plan_refused() {
    let table = UnitTable::standard();
    assert!(matches!(
        plan(&ask("10 m/s"), &table),
        Err(ConversionError::Input(InputError::MissingSeparator))
    ));
    assert!(matches!(
        plan(&ask("10 m/ => s"), &table),
        Err(ConversionError::Parse(ParseError::MissingOperand))
    ));
    assert!(matches!(
        plan(&ask("10 m => )"), &table),
        Err(ConversionError::Parse(ParseError::UnmatchedParenthesis))
    ));
    // the unit to convert from is read first
    assert!(matches!(
        plan(&ask("10 m s => )"), &table),
        Err(ConversionError::Parse(ParseError::MissingOperator))
    ));
    let refused = plan(&ask("10 m/s => kg"), &table).unwrap_err();
    assert!(matches!(refused, ConversionError::Mismatch(_, _)));
    assert_eq!(
        refused.message(),
        "Unit dimensions do not match. ([length] [time]\u{207b}\u{b9} vs [mass])"
    );
    assert_eq!(
        plan(&ask("x => y"), &table).unwrap_err().message(),
        "Expected a number at the start"
    );
    assert_eq!(
        plan(&ask("1 2 => m"), &table).unwrap_err().message(),
        "Unexpected number in expression"
    );
    assert_eq!(
        plan(&ask("1 qq => y"), &table).unwrap_err().message(),
        "Invalid token: qq"
    );
}

#[test]
fn listing_of_units() {
    let table = UnitTable::standard();
    let units = get_units();
    assert_eq!(units, units_of(&table));
    assert_eq!(units.len(), table.spaces.iter().map(|space| space.units.len()).sum::<usize>());
    assert_eq!(units[0].name, "radian");
    assert_eq!(units[0].space, "angle");
    assert_eq!(units[0].aliases.to_vec(), vec!["rad"]);
    assert!(units[0].metric);
    let meter = units.iter().find(|unit| unit.name == "meter").unwrap();
    assert_eq!(meter.space, "length");
    assert_eq!(meter.link, Some("https://en.wikipedia.org/wiki/Metre"));
}

#[test]
fn listing_of_derived_units() {
    let table = UnitTable::standard();
    let units = get_derived_units();
    assert_eq!(units, derived_units_of(&table));
    assert_eq!(units.len(), table.derived.iter().map(|group| group.len()).sum::<usize>());
    assert_eq!(units[0].name, "coulomb");
    assert_eq!(units[0].derived_from, "[ampere] [second]");
    let curie = units.iter().find(|unit| unit.name == "curie").unwrap();
    assert_eq!(curie.derived_from, "[second]\u{207b}\u{b9}");
    let joule = units.iter().find(|unit| unit.name == "joule").unwrap();
    assert_eq!(joule.derived_from, "[gram] [meter]\u{b2} [second]\u{207b}\u{b2}");
}

#[test]
fn convert_plans_without_dimensions_and_debug() {
    let made = convert("50 kWh => J").unwrap();
    assert_eq!(made.value, "50");
    assert_eq!(made.from_unit, "kWh");
    assert_eq!(made.to_unit, "J");
    assert_eq!(made.leaving, 5);
    assert_eq!(made.steps.len(), 8);
    assert_eq!(made.dimensions, None);
    assert!(!made.debug);
    assert!(matches!(convert("50 kWh => s"), Err(ConversionError::Mismatch(_, _))));
    assert!(matches!(
        convert("50 kWh"),
        Err(ConversionError::Input(InputError::MissingSeparator))
    ));
}

#[test]
fn version_is_known() {
    assert_eq!(unit_convert::version(), unit_convert::VERSION);
    assert_eq!(unit_convert::VERSION, "0.1.0");
}

#[test]
fn split_goes_by_the_flags_it_is_given() {
    let chars: Vec<char> = " 10 m => s ".chars().collect();
    let white: Vec<bool> = chars.iter().map(|c| *c == ' ').collect();
    assert_eq!(Input::split(&chars, &white), parts("10", "m", "s"));
    // without flags nothing is white space
    assert_eq!(Input::split(&chars, &vec![]), Err(InputError::MissingValue));
    let chars: Vec<char> = "10 m => s ".chars().collect();
    assert_eq!(Input::split(&chars, &vec![]), parts("10", " m ", " s "));
    // flags beyond the text are left alone, flags on other characters are obeyed
    let chars: Vec<char> = "x1y=>z".chars().collect();
    let white = vec![true, false, true, false, false, false, true, true];
    assert_eq!(Input::split(&chars, &white), parts("1", "", "z"));
}
