//! Units of radiation dose.

use super::{constant, group_view, DerivedConversion, DerivedView};
use crate::dimension::Unit;
use crate::units::{length, time, Decimal};
use vstd::prelude::*;

verus! {

/// The units whose product is one gray, as a value.
pub open spec fn gray_units_spec() -> Seq<Unit> {
    seq![
        Unit { conversion: length::meter(), power: 2, sci_exponent: 0 },
        Unit { conversion: time::second(), power: -2i64, sci_exponent: 0 },
    ]
}

/// The units whose product is one gray.
fn gray_units() -> (units: Vec<Unit>)
    ensures
        units@ == gray_units_spec(),
{
    let mut units: Vec<Unit> = Vec::new();
    units.push(Unit::new(length::meter(), 2, 0));
    units.push(Unit::new(time::second(), -2, 0));
    assert(units@ =~= gray_units_spec());
    units
}

/// The units whose product is one sievert, as a value.
pub open spec fn sievert_units_spec() -> Seq<Unit> {
    seq![
        Unit { conversion: length::meter(), power: 2, sci_exponent: 0 },
        Unit { conversion: time::second(), power: -2i64, sci_exponent: 0 },
    ]
}

/// The units whose product is one sievert.
fn sievert_units() -> (units: Vec<Unit>)
    ensures
        units@ == sievert_units_spec(),
{
    let mut units: Vec<Unit> = Vec::new();
    units.push(Unit::new(length::meter(), 2, 0));
    units.push(Unit::new(time::second(), -2, 0));
    assert(units@ =~= sievert_units_spec());
    units
}

/// The unit `gray` as a value.
pub open spec fn gray_spec() -> DerivedView {
    DerivedView {
        name: "gray",
        description: Some("Unit of ionizing radiation dose in the International System of Units."),
        link: Some("https://en.wikipedia.org/wiki/Gray_(unit)"),
        expand: gray_units_spec(),
        aliases: &["Gy"],
        metric: false,
    }
}

/// Unit of ionizing radiation dose in the International System of Units.
pub fn gray() -> (unit: DerivedConversion)
    ensures
        unit@ == gray_spec(),
{
    let expand: Vec<Unit> = gray_units();
    assert(expand@ =~= gray_spec().expand);
    DerivedConversion {
        name: "gray",
        description: Some("Unit of ionizing radiation dose in the International System of Units."),
        link: Some("https://en.wikipedia.org/wiki/Gray_(unit)"),
        expand,
        aliases: &["Gy"],
        metric: false,
    }
}

/// The unit `radiationunit` as a value.
pub open spec fn radiation_unit_spec() -> DerivedView {
    DerivedView {
        name: "radiationunit",
        description: Some("Defined as 1 rad = 0.01 Gy = 0.01 J/kg."),
        link: Some("https://en.wikipedia.org/wiki/Rad_(radiation_unit)"),
        expand: gray_units_spec() + seq![constant(Decimal { mantissa: 1, exponent: -2i32 }, 0)],
        aliases: &[],
        metric: true,
    }
}

/// Defined as 1 rad = 0.01 Gy = 0.01 J/kg.
pub fn radiation_unit() -> (unit: DerivedConversion)
    ensures
        unit@ == radiation_unit_spec(),
{
    let mut expand: Vec<Unit> = gray_units();
    expand.push(constant(Decimal { mantissa: 1, exponent: -2i32 }, 0));
    assert(expand@ =~= radiation_unit_spec().expand);
    DerivedConversion {
        name: "radiationunit",
        description: Some("Defined as 1 rad = 0.01 Gy = 0.01 J/kg."),
        link: Some("https://en.wikipedia.org/wiki/Rad_(radiation_unit)"),
        expand,
        aliases: &[],
        metric: true,
    }
}

/// The unit `sievert` as a value.
pub open spec fn sievert_spec() -> DerivedView {
    DerivedView {
        name: "sievert",
        description: Some("Unit in the International System of Units intended to represent the stochastic health risk of ionizing radiation."),
        link: Some("https://en.wikipedia.org/wiki/Sievert"),
        expand: sievert_units_spec(),
        aliases: &["Sv"],
        metric: false,
    }
}

/// Unit in the International System of Units intended to represent the
/// stochastic health risk of ionizing radiation.
pub fn sievert() -> (unit: DerivedConversion)
    ensures
        unit@ == sievert_spec(),
{
    let expand: Vec<Unit> = sievert_units();
    assert(expand@ =~= sievert_spec().expand);
    DerivedConversion {
        name: "sievert",
        description: Some("Unit in the International System of Units intended to represent the stochastic health risk of ionizing radiation."),
        link: Some("https://en.wikipedia.org/wiki/Sievert"),
        expand,
        aliases: &["Sv"],
        metric: false,
    }
}

/// The unit `roentgenequivalentman` as a value.
pub open spec fn roentgen_equivalent_man_spec() -> DerivedView {
    DerivedView {
        name: "roentgenequivalentman",
        description: Some("A CGS unit of equivalent dose, effective dose, and committed dose."),
        link: Some("https://en.wikipedia.org/wiki/Roentgen_equivalent_man"),
        expand: sievert_units_spec() + seq![constant(Decimal { mantissa: 1, exponent: -2i32 }, 0)],
        aliases: &["rem"],
        metric: true,
    }
}

/// A CGS unit of equivalent dose, effective dose, and committed dose.
pub fn roentgen_equivalent_man() -> (unit: DerivedConversion)
    ensures
        unit@ == roentgen_equivalent_man_spec(),
{
    let mut expand: Vec<Unit> = sievert_units();
    expand.push(constant(Decimal { mantissa: 1, exponent: -2i32 }, 0));
    assert(expand@ =~= roentgen_equivalent_man_spec().expand);
    DerivedConversion {
        name: "roentgenequivalentman",
        description: Some("A CGS unit of equivalent dose, effective dose, and committed dose."),
        link: Some("https://en.wikipedia.org/wiki/Roentgen_equivalent_man"),
        expand,
        aliases: &["rem"],
        metric: true,
    }
}

/// The units of this group as values.
pub open spec fn units_spec() -> Seq<DerivedView> {
    seq![
        gray_spec(),
        radiation_unit_spec(),
        sievert_spec(),
        roentgen_equivalent_man_spec(),
    ]
}

/// All units of this group.
pub fn units() -> (units: Vec<DerivedConversion>)
    ensures
        group_view(units@) == units_spec(),
{
    let mut units: Vec<DerivedConversion> = Vec::new();
    units.push(gray());
    units.push(radiation_unit());
    units.push(sievert());
    units.push(roentgen_equivalent_man());
    assert(group_view(units@) =~= units_spec());
    units
}

} // verus!
