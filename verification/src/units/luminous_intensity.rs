//! Units of luminous intensity; the base unit is the candela.

use super::{Conversion, Decimal, Formula, Space, UnitSpace, UnitSpaceView};
use vstd::prelude::*;

verus! {

/// The unit `candela` as a value.
pub open spec fn candela_spec() -> Conversion {
    Conversion {
        name: "candela",
        description: Some("The unit of luminous intensity in the International System of Units."),
        link: Some("https://en.wikipedia.org/wiki/Candela"),
        space: Space::LuminousIntensity,
        formula: Formula::Identity,
        aliases: &["cd"],
        metric: true,
        special: false,
    }
}

/// The unit of luminous intensity in the International System of Units.
#[verifier::when_used_as_spec(candela_spec)]
pub fn candela() -> (unit: Conversion)
    ensures
        unit == candela_spec(),
{
    Conversion {
        name: "candela",
        description: Some("The unit of luminous intensity in the International System of Units."),
        link: Some("https://en.wikipedia.org/wiki/Candela"),
        space: Space::LuminousIntensity,
        formula: Formula::Identity,
        aliases: &["cd"],
        metric: true,
        special: false,
    }
}

/// The unit `hefnerkerze` as a value.
pub open spec fn hefnerkerze_spec() -> Conversion {
    Conversion {
        name: "hefnerkerze",
        description: Some("Defined by the luminous flux, which radiates an amyl acetate lamp designed by the engineer Friedrich von Hefner-Alteneck, the Hefner lamp, at 40 mm flame height and 8 mm wick diameter in a horizontal direction."),
        link: Some("https://de.wikipedia.org/wiki/Hefnerkerze"),
        space: Space::LuminousIntensity,
        formula: Formula::Linear {
            to_base: Decimal { mantissa: 903, exponent: -3i32 },
            from_base: Decimal { mantissa: 903, exponent: -3i32 },
        },
        aliases: &["hk"],
        metric: false,
        special: false,
    }
}

/// Defined by the luminous flux, which radiates an amyl acetate lamp
/// designed by the engineer Friedrich von Hefner-Alteneck, the Hefner lamp,
/// at 40 mm flame height and 8 mm wick diameter in a horizontal direction.
#[verifier::when_used_as_spec(hefnerkerze_spec)]
pub fn hefnerkerze() -> (unit: Conversion)
    ensures
        unit == hefnerkerze_spec(),
{
    Conversion {
        name: "hefnerkerze",
        description: Some("Defined by the luminous flux, which radiates an amyl acetate lamp designed by the engineer Friedrich von Hefner-Alteneck, the Hefner lamp, at 40 mm flame height and 8 mm wick diameter in a horizontal direction."),
        link: Some("https://de.wikipedia.org/wiki/Hefnerkerze"),
        space: Space::LuminousIntensity,
        formula: Formula::Linear {
            to_base: Decimal { mantissa: 903, exponent: -3i32 },
            from_base: Decimal { mantissa: 903, exponent: -3i32 },
        },
        aliases: &["hk"],
        metric: false,
        special: false,
    }
}

/// The space of luminous intensity as a value: its units, the base unit first.
pub open spec fn units_spec() -> UnitSpaceView {
    UnitSpaceView {
        name: "luminousintensity",
        space: Space::LuminousIntensity,
        units: seq![
            candela(),
            hefnerkerze(),
        ],
    }
}

/// All units of luminous intensity, the base unit first.
pub fn units() -> (space: UnitSpace)
    ensures
        space@ == units_spec(),
{
    let mut units: Vec<Conversion> = Vec::new();
    units.push(candela());
    units.push(hefnerkerze());
    assert(units@ =~= units_spec().units);
    UnitSpace { name: "luminousintensity", space: Space::LuminousIntensity, units }
}

} // verus!
