//! Units of temperature; the base unit is the kelvin.

use super::{Conversion, Formula, Space, UnitSpace, UnitSpaceView};
use vstd::prelude::*;

verus! {

/// The unit `kelvin` as a value.
pub open spec fn kelvin_spec() -> Conversion {
    Conversion {
        name: "kelvin",
        description: Some("An absolute scale, defined such that 0 K is absolute zero and a change of thermodynamic temperature T by 1 kelvin corresponds to a change of thermal energy kT by 1.380649*10^{-23} J"),
        link: Some("https://en.wikipedia.org/wiki/Kelvin"),
        space: Space::Temperature,
        formula: Formula::Identity,
        aliases: &["k", "degk"],
        metric: false,
        special: false,
    }
}

/// An absolute scale, defined such that 0 K is absolute zero and a change
/// of thermodynamic temperature T by 1 kelvin corresponds to a change of
/// thermal energy kT by 1.380649*10^{-23} J
#[verifier::when_used_as_spec(kelvin_spec)]
pub fn kelvin() -> (unit: Conversion)
    ensures
        unit == kelvin_spec(),
{
    Conversion {
        name: "kelvin",
        description: Some("An absolute scale, defined such that 0 K is absolute zero and a change of thermodynamic temperature T by 1 kelvin corresponds to a change of thermal energy kT by 1.380649*10^{-23} J"),
        link: Some("https://en.wikipedia.org/wiki/Kelvin"),
        space: Space::Temperature,
        formula: Formula::Identity,
        aliases: &["k", "degk"],
        metric: false,
        special: false,
    }
}

/// The unit `celsius` as a value.
pub open spec fn celsius_spec() -> Conversion {
    Conversion {
        name: "celsius",
        description: Some("(x + 273.15) K"),
        link: Some("https://en.wikipedia.org/wiki/Celsius"),
        space: Space::Temperature,
        formula: Formula::Celsius,
        aliases: &["c", "degc"],
        metric: false,
        special: false,
    }
}

/// (x + 273.15) K
#[verifier::when_used_as_spec(celsius_spec)]
pub fn celsius() -> (unit: Conversion)
    ensures
        unit == celsius_spec(),
{
    Conversion {
        name: "celsius",
        description: Some("(x + 273.15) K"),
        link: Some("https://en.wikipedia.org/wiki/Celsius"),
        space: Space::Temperature,
        formula: Formula::Celsius,
        aliases: &["c", "degc"],
        metric: false,
        special: false,
    }
}

/// The unit `fahrenheit` as a value.
pub open spec fn fahrenheit_spec() -> Conversion {
    Conversion {
        name: "fahrenheit",
        description: Some("5/9(x + 459.67) K"),
        link: Some("https://en.wikipedia.org/wiki/Fahrenheit"),
        space: Space::Temperature,
        formula: Formula::Fahrenheit,
        aliases: &["f", "degf"],
        metric: false,
        special: false,
    }
}

/// 5/9(x + 459.67) K
#[verifier::when_used_as_spec(fahrenheit_spec)]
pub fn fahrenheit() -> (unit: Conversion)
    ensures
        unit == fahrenheit_spec(),
{
    Conversion {
        name: "fahrenheit",
        description: Some("5/9(x + 459.67) K"),
        link: Some("https://en.wikipedia.org/wiki/Fahrenheit"),
        space: Space::Temperature,
        formula: Formula::Fahrenheit,
        aliases: &["f", "degf"],
        metric: false,
        special: false,
    }
}

/// The unit `rankine` as a value.
pub open spec fn rankine_spec() -> Conversion {
    Conversion {
        name: "rankine",
        description: Some("5/9 x K"),
        link: Some("https://en.wikipedia.org/wiki/Rankine_scale"),
        space: Space::Temperature,
        formula: Formula::Rankine,
        aliases: &["r", "degr"],
        metric: false,
        special: false,
    }
}

/// 5/9 x K
#[verifier::when_used_as_spec(rankine_spec)]
pub fn rankine() -> (unit: Conversion)
    ensures
        unit == rankine_spec(),
{
    Conversion {
        name: "rankine",
        description: Some("5/9 x K"),
        link: Some("https://en.wikipedia.org/wiki/Rankine_scale"),
        space: Space::Temperature,
        formula: Formula::Rankine,
        aliases: &["r", "degr"],
        metric: false,
        special: false,
    }
}

/// The space of temperature as a value: its units, the base unit first.
pub open spec fn units_spec() -> UnitSpaceView {
    UnitSpaceView {
        name: "temperature",
        space: Space::Temperature,
        units: seq![
            kelvin(),
            celsius(),
            fahrenheit(),
            rankine(),
        ],
    }
}

/// All units of temperature, the base unit first.
pub fn units() -> (space: UnitSpace)
    ensures
        space@ == units_spec(),
{
    let mut units: Vec<Conversion> = Vec::new();
    units.push(kelvin());
    units.push(celsius());
    units.push(fahrenheit());
    units.push(rankine());
    assert(units@ =~= units_spec().units);
    UnitSpace { name: "temperature", space: Space::Temperature, units }
}

} // verus!
