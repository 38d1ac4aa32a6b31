use hashbrown::HashSet;
use unit_convert::units::derived;
use unit_convert::units::{length, unit_spaces, Conversion, Formula, Space, UnitTable};

#[test]
fn test_test_name_collisions() {
    let mut sack = HashSet::new();
    let mut collisions = HashSet::new();

    for space in unit_spaces() {
        for unit in &space.units {
            if !sack.insert(unit.name) {
                collisions.insert(unit.name);
            }

            for alias in unit.aliases {
                if !sack.insert(alias) {
                    collisions.insert(alias);
                }
            }
        }
    }

    for space in derived::derived_units() {
        for unit in space.iter() {
            if !sack.insert(unit.name) {
                collisions.insert(unit.name);
            }

            for alias in unit.aliases {
                if !sack.insert(alias) {
                    collisions.insert(alias);
                }
            }
        }
    }

    assert!(collisions.is_empty(), "name collisions: {:?}", collisions);
}

#[test]
fn mod_test_name_collisions() {
    let mut sack = std::collections::HashSet::new();
    let mut collisions = std::collections::HashSet::new();

    for space in unit_spaces() {
        for unit in &space.units {
            let mut success = sack.insert(unit.name);
            for alias in unit.aliases {
                success &= sack.insert(alias);
            }

            if !success {
                collisions.insert(unit.name);
            }
        }
    }

    assert!(collisions.is_empty(), "name collisions: {:?}", collisions);
}

#[test]
fn is_alias_folds_the_case_of_the_name_only() {
    let meter = length::meter();
    assert!(meter.is_alias("meter"));
    assert!(meter.is_alias("Meter"));
    assert!(meter.is_alias("METER"));
    assert!(meter.is_alias("m"));
    assert!(meter.is_alias("metre"));
    assert!(!meter.is_alias("M"));
    assert!(!meter.is_alias("Metre"));
    assert!(!meter.is_alias("mete"));
    assert!(!meter.is_alias("meters"));
    assert!(!meter.is_alias(""));
}

#[test]
fn unit_space_get_finds_the_first_match() {
    let space = length::units();
    assert_eq!(space.get("ft"), Some(length::foot()));
    assert_eq!(space.get("FOOT"), Some(length::foot()));
    assert_eq!(space.get("s"), None);
}

#[test]
fn derived_get_by_name_and_alias() {
    let groups = derived::derived_units();
    assert_eq!(derived::get(&groups, "N").map(|unit| unit.name), Some("newton"));
    assert_eq!(derived::get(&groups, "Newton").map(|unit| unit.name), Some("newton"));
    assert_eq!(derived::get(&groups, "footcandle").map(|unit| unit.name), Some("footcandle"));
    assert_eq!(derived::get(&groups, "n").map(|unit| unit.name), None);
}

#[test]
fn shorthand_get_is_exact() {
    let shorthands = unit_convert::shorthand::shorthands();
    assert_eq!(
        unit_convert::shorthand::get(&shorthands, "mph").map(|found| found.name),
        Some("mph")
    );
    assert_eq!(unit_convert::shorthand::get(&shorthands, "MPH").map(|found| found.name), None);
    assert_eq!(
        unit_convert::shorthand::get(&shorthands, "Wh").map(|found| found.metric),
        Some(true)
    );
}

#[test]
fn prefix_get_prefers_the_whole_name() {
    let table = UnitTable::standard();
    let (found, prefix) = unit_convert::prefix::get(&table, "cd").unwrap();
    assert_eq!(found.as_conversion().map(|unit| unit.name), Some("candela"));
    assert_eq!(prefix, None);
    let (found, prefix) = unit_convert::prefix::get(&table, "cm").unwrap();
    assert_eq!(found.as_conversion().map(|unit| unit.name), Some("meter"));
    assert_eq!(prefix.map(|prefix| (prefix.name, prefix.power)), Some(("centi", -2)));
    let (found, prefix) = unit_convert::prefix::get(&table, "megawatt").unwrap();
    assert_eq!(found.as_conversion(), None);
    assert!(found.is_metric());
    assert_eq!(prefix.map(|prefix| prefix.power), Some(6));
    // a prefix with nothing behind it names nothing
    assert_eq!(unit_convert::prefix::get(&table, "q"), None);
    assert_eq!(unit_convert::prefix::get(&table, "kilo"), None);
    assert_eq!(unit_convert::prefix::get(&table, "kfoot"), None);
}

#[test]
fn spaces_have_an_index_and_a_name() {
    let all = [
        Space::Angle,
        Space::ElectricCurrent,
        Space::Length,
        Space::LuminousIntensity,
        Space::Mass,
        Space::Quantity,
        Space::Temperature,
        Space::Time,
        Space::Dynamic,
    ];
    for (i, space) in all.iter().enumerate() {
        assert_eq!(space.index() as usize, i);
        assert_eq!(Space::at(i as u8), *space);
    }
    assert_eq!(Space::at(200), Space::Dynamic);
    assert_eq!(Space::ElectricCurrent.name(), "electric current");
    assert_eq!(Space::LuminousIntensity.name(), "luminous intensity");
    assert_eq!(Space::Dynamic.name(), "dynamic");
}

#[test]
fn a_constant_is_a_special_unit_of_the_dynamic_space() {
    let factor = unit_convert::units::Decimal { mantissa: 4448222, exponent: -6 };
    let unit: Conversion = Conversion::constant(factor);
    assert_eq!(unit.name, "virtual-unit");
    assert_eq!(unit.space, Space::Dynamic);
    assert!(unit.special);
    assert!(!unit.metric);
    assert_eq!(unit.formula, Formula::Linear { to_base: factor, from_base: factor });
    assert!(unit.aliases.is_empty());
}

#[test]
fn the_standard_table() {
    let table = UnitTable::standard();
    assert_eq!(table.spaces.len(), 8);
    assert_eq!(table.derived.len(), 9);
    assert_eq!(table.shorthands.len(), 2);
    assert_eq!(table.prefixes.len(), 24);
    for space in &table.spaces {
        for unit in &space.units {
            assert_eq!(unit.space, space.space);
            assert!(!unit.special);
        }
    }
}

#[test]
fn the_standard_table_is_free_of_name_collisions() {
    let table = UnitTable::standard();
    assert_eq!(table.name_collisions(), Vec::<&str>::new());
    let names = table.names();
    assert_eq!(&names[..3], &["radian", "rad", "steradian"]);
    assert_eq!(names.last(), Some(&"statV"));
}

#[test]
fn name_collisions_are_found() {
    let mut table = UnitTable::standard();
    let mut twice = length::units();
    twice.units.truncate(2);
    table.spaces.push(twice);
    assert_eq!(table.name_collisions(), vec!["meter", "m", "metre", "inch", "in", "\""]);
}
