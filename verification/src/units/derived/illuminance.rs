//! Units of illuminance.

use super::{constant, group_view, DerivedConversion, DerivedView};
use crate::dimension::Unit;
use crate::units::{angle, length, luminous_intensity, Decimal};
use vstd::prelude::*;

verus! {

/// The units whose product is one lux, as a value.
pub open spec fn lux_units_spec() -> Seq<Unit> {
    seq![
        Unit { conversion: luminous_intensity::candela(), power: 1, sci_exponent: 0 },
        Unit { conversion: angle::steradian(), power: 1, sci_exponent: 0 },
        Unit { conversion: length::meter(), power: -2i64, sci_exponent: 0 },
    ]
}

/// The units whose product is one lux.
fn lux_units() -> (units: Vec<Unit>)
    ensures
        units@ == lux_units_spec(),
{
    let mut units: Vec<Unit> = Vec::new();
    units.push(Unit::new(luminous_intensity::candela(), 1, 0));
    units.push(Unit::new(angle::steradian(), 1, 0));
    units.push(Unit::new(length::meter(), -2, 0));
    assert(units@ =~= lux_units_spec());
    units
}

/// The unit `lux` as a value.
pub open spec fn lux_spec() -> DerivedView {
    DerivedView {
        name: "lux",
        description: Some("The unit of illuminance, or luminous flux per unit area, in the International System of Units. Equal to one lumen per square metre."),
        link: Some("https://en.wikipedia.org/wiki/Lux"),
        expand: lux_units_spec(),
        aliases: &["lx"],
        metric: false,
    }
}

/// The unit of illuminance, or luminous flux per unit area, in the
/// International System of Units. Equal to one lumen per square metre.
pub fn lux() -> (unit: DerivedConversion)
    ensures
        unit@ == lux_spec(),
{
    let expand: Vec<Unit> = lux_units();
    assert(expand@ =~= lux_spec().expand);
    DerivedConversion {
        name: "lux",
        description: Some("The unit of illuminance, or luminous flux per unit area, in the International System of Units. Equal to one lumen per square metre."),
        link: Some("https://en.wikipedia.org/wiki/Lux"),
        expand,
        aliases: &["lx"],
        metric: false,
    }
}

/// The unit `phot` as a value.
pub open spec fn phot_spec() -> DerivedView {
    DerivedView {
        name: "phot",
        description: Some("Equal to 10000 lx. From the centimetre-gram-second system of units."),
        link: Some("https://en.wikipedia.org/wiki/Phot"),
        expand: lux_units_spec() + seq![constant(Decimal { mantissa: 1, exponent: 4 }, 0)],
        aliases: &["ph"],
        metric: false,
    }
}

/// Equal to 10000 lx. From the centimetre-gram-second system of units.
pub fn phot() -> (unit: DerivedConversion)
    ensures
        unit@ == phot_spec(),
{
    let mut expand: Vec<Unit> = lux_units();
    expand.push(constant(Decimal { mantissa: 1, exponent: 4 }, 0));
    assert(expand@ =~= phot_spec().expand);
    DerivedConversion {
        name: "phot",
        description: Some("Equal to 10000 lx. From the centimetre-gram-second system of units."),
        link: Some("https://en.wikipedia.org/wiki/Phot"),
        expand,
        aliases: &["ph"],
        metric: false,
    }
}

/// The unit `footcandle` as a value.
pub open spec fn foot_candle_spec() -> DerivedView {
    DerivedView {
        name: "footcandle",
        description: Some("Defined as one lumen per square foot."),
        link: Some("https://en.wikipedia.org/wiki/Foot-candle"),
        expand: lux_units_spec() + seq![constant(Decimal { mantissa: 10763910416709722, exponent: -15i32 }, 0)],
        aliases: &["fc"],
        metric: false,
    }
}

/// Defined as one lumen per square foot.
pub fn foot_candle() -> (unit: DerivedConversion)
    ensures
        unit@ == foot_candle_spec(),
{
    let mut expand: Vec<Unit> = lux_units();
    expand.push(constant(Decimal { mantissa: 10763910416709722, exponent: -15i32 }, 0));
    assert(expand@ =~= foot_candle_spec().expand);
    DerivedConversion {
        name: "footcandle",
        description: Some("Defined as one lumen per square foot."),
        link: Some("https://en.wikipedia.org/wiki/Foot-candle"),
        expand,
        aliases: &["fc"],
        metric: false,
    }
}

/// The units of this group as values.
pub open spec fn units_spec() -> Seq<DerivedView> {
    seq![
        lux_spec(),
        phot_spec(),
        foot_candle_spec(),
    ]
}

/// All units of this group.
pub fn units() -> (units: Vec<DerivedConversion>)
    ensures
        group_view(units@) == units_spec(),
{
    let mut units: Vec<DerivedConversion> = Vec::new();
    units.push(lux());
    units.push(phot());
    units.push(foot_candle());
    assert(group_view(units@) =~= units_spec());
    units
}

} // verus!
