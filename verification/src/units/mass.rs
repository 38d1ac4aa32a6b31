//! Units of mass; the base unit is the gram.

use super::{Conversion, Decimal, Formula, Space, UnitSpace, UnitSpaceView};
use vstd::prelude::*;

verus! {

/// The unit `gram` as a value.
pub open spec fn gram_spec() -> Conversion {
    Conversion {
        name: "gram",
        description: Some("Equal to one one thousandth of a kilogram."),
        link: Some("https://en.wikipedia.org/wiki/Gram"),
        space: Space::Mass,
        formula: Formula::Identity,
        aliases: &["g"],
        metric: true,
        special: false,
    }
}

/// Equal to one one thousandth of a kilogram.
#[verifier::when_used_as_spec(gram_spec)]
pub fn gram() -> (unit: Conversion)
    ensures
        unit == gram_spec(),
{
    Conversion {
        name: "gram",
        description: Some("Equal to one one thousandth of a kilogram."),
        link: Some("https://en.wikipedia.org/wiki/Gram"),
        space: Space::Mass,
        formula: Formula::Identity,
        aliases: &["g"],
        metric: true,
        special: false,
    }
}

/// The unit `tonne` as a value.
pub open spec fn tonne_spec() -> Conversion {
    Conversion {
        name: "tonne",
        description: Some("Equal to 1000 kilograms."),
        link: Some("https://en.wikipedia.org/wiki/Tonne"),
        space: Space::Mass,
        formula: Formula::Linear {
            to_base: Decimal { mantissa: 1, exponent: 6 },
            from_base: Decimal { mantissa: 1, exponent: 5 },
        },
        aliases: &["t"],
        metric: false,
        special: false,
    }
}

/// Equal to 1000 kilograms.
#[verifier::when_used_as_spec(tonne_spec)]
pub fn tonne() -> (unit: Conversion)
    ensures
        unit == tonne_spec(),
{
    Conversion {
        name: "tonne",
        description: Some("Equal to 1000 kilograms."),
        link: Some("https://en.wikipedia.org/wiki/Tonne"),
        space: Space::Mass,
        formula: Formula::Linear {
            to_base: Decimal { mantissa: 1, exponent: 6 },
            from_base: Decimal { mantissa: 1, exponent: 5 },
        },
        aliases: &["t"],
        metric: false,
        special: false,
    }
}

/// The unit `pound` as a value.
pub open spec fn pound_spec() -> Conversion {
    Conversion {
        name: "pound",
        description: Some("Legally defined as exactly 0.45359237 kilograms."),
        link: Some("https://en.wikipedia.org/wiki/Pound_(mass)"),
        space: Space::Mass,
        formula: Formula::Linear {
            to_base: Decimal { mantissa: 45359237, exponent: -5i32 },
            from_base: Decimal { mantissa: 45359237, exponent: -5i32 },
        },
        aliases: &["lb"],
        metric: false,
        special: false,
    }
}

/// Legally defined as exactly 0.45359237 kilograms.
#[verifier::when_used_as_spec(pound_spec)]
pub fn pound() -> (unit: Conversion)
    ensures
        unit == pound_spec(),
{
    Conversion {
        name: "pound",
        description: Some("Legally defined as exactly 0.45359237 kilograms."),
        link: Some("https://en.wikipedia.org/wiki/Pound_(mass)"),
        space: Space::Mass,
        formula: Formula::Linear {
            to_base: Decimal { mantissa: 45359237, exponent: -5i32 },
            from_base: Decimal { mantissa: 45359237, exponent: -5i32 },
        },
        aliases: &["lb"],
        metric: false,
        special: false,
    }
}

/// The space of mass as a value: its units, the base unit first.
pub open spec fn units_spec() -> UnitSpaceView {
    UnitSpaceView {
        name: "mass",
        space: Space::Mass,
        units: seq![
            gram(),
            tonne(),
            pound(),
        ],
    }
}

/// All units of mass, the base unit first.
pub fn units() -> (space: UnitSpace)
    ensures
        space@ == units_spec(),
{
    let mut units: Vec<Conversion> = Vec::new();
    units.push(gram());
    units.push(tonne());
    units.push(pound());
    assert(units@ =~= units_spec().units);
    UnitSpace { name: "mass", space: Space::Mass, units }
}

} // verus!
