//! Units of quantity; the base unit is the number.

use super::{Conversion, Decimal, Formula, Space, UnitSpace, UnitSpaceView};
use vstd::prelude::*;

verus! {

/// The unit `number` as a value.
pub open spec fn number_spec() -> Conversion {
    Conversion {
        name: "number",
        description: None,
        link: None,
        space: Space::Quantity,
        formula: Formula::Identity,
        aliases: &["n", "num", "x"],
        metric: true,
        special: false,
    }
}

/// The unit `number`.
#[verifier::when_used_as_spec(number_spec)]
pub fn number() -> (unit: Conversion)
    ensures
        unit == number_spec(),
{
    Conversion {
        name: "number",
        description: None,
        link: None,
        space: Space::Quantity,
        formula: Formula::Identity,
        aliases: &["n", "num", "x"],
        metric: true,
        special: false,
    }
}

/// The unit `mole` as a value.
pub open spec fn mole_spec() -> Conversion {
    Conversion {
        name: "mole",
        description: Some("One mole contains exactly 6.02214076*10^{23} elementary entities."),
        link: Some("https://en.wikipedia.org/wiki/Mole_(unit)"),
        space: Space::Quantity,
        formula: Formula::Linear {
            to_base: Decimal { mantissa: 602214076, exponent: 15 },
            from_base: Decimal { mantissa: 602214076, exponent: 15 },
        },
        aliases: &["mol"],
        metric: false,
        special: false,
    }
}

/// One mole contains exactly 6.02214076*10^{23} elementary entities.
#[verifier::when_used_as_spec(mole_spec)]
pub fn mole() -> (unit: Conversion)
    ensures
        unit == mole_spec(),
{
    Conversion {
        name: "mole",
        description: Some("One mole contains exactly 6.02214076*10^{23} elementary entities."),
        link: Some("https://en.wikipedia.org/wiki/Mole_(unit)"),
        space: Space::Quantity,
        formula: Formula::Linear {
            to_base: Decimal { mantissa: 602214076, exponent: 15 },
            from_base: Decimal { mantissa: 602214076, exponent: 15 },
        },
        aliases: &["mol"],
        metric: false,
        special: false,
    }
}

/// The space of quantity as a value: its units, the base unit first.
pub open spec fn units_spec() -> UnitSpaceView {
    UnitSpaceView {
        name: "quantity",
        space: Space::Quantity,
        units: seq![
            number(),
            mole(),
        ],
    }
}

/// All units of quantity, the base unit first.
pub fn units() -> (space: UnitSpace)
    ensures
        space@ == units_spec(),
{
    let mut units: Vec<Conversion> = Vec::new();
    units.push(number());
    units.push(mole());
    assert(units@ =~= units_spec().units);
    UnitSpace { name: "quantity", space: Space::Quantity, units }
}

} // verus!
