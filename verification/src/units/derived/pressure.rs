//! Units of pressure.

use super::{constant, group_view, DerivedConversion, DerivedView};
use crate::dimension::Unit;
use crate::units::{length, mass, time, Decimal};
use vstd::prelude::*;

verus! {

/// The units whose product is one pascal, as a value.
pub open spec fn pascal_units_spec() -> Seq<Unit> {
    seq![
        Unit { conversion: mass::gram(), power: 1, sci_exponent: 3 },
        Unit { conversion: length::meter(), power: -1i64, sci_exponent: 0 },
        Unit { conversion: time::second(), power: -2i64, sci_exponent: 0 },
    ]
}

/// The units whose product is one pascal.
fn pascal_units() -> (units: Vec<Unit>)
    ensures
        units@ == pascal_units_spec(),
{
    let mut units: Vec<Unit> = Vec::new();
    units.push(Unit::new(mass::gram(), 1, 3));
    units.push(Unit::new(length::meter(), -1, 0));
    units.push(Unit::new(time::second(), -2, 0));
    assert(units@ =~= pascal_units_spec());
    units
}

/// The unit `pascal` as a value.
pub open spec fn pascal_spec() -> DerivedView {
    DerivedView {
        name: "pascal",
        description: Some("The unit of pressure in the International System of Units."),
        link: Some("https://en.wikipedia.org/wiki/Pascal_(unit)"),
        expand: pascal_units_spec(),
        aliases: &["Pa"],
        metric: true,
    }
}

/// The unit of pressure in the International System of Units.
pub fn pascal() -> (unit: DerivedConversion)
    ensures
        unit@ == pascal_spec(),
{
    let expand: Vec<Unit> = pascal_units();
    assert(expand@ =~= pascal_spec().expand);
    DerivedConversion {
        name: "pascal",
        description: Some("The unit of pressure in the International System of Units."),
        link: Some("https://en.wikipedia.org/wiki/Pascal_(unit)"),
        expand,
        aliases: &["Pa"],
        metric: true,
    }
}

/// The unit `psi` as a value.
pub open spec fn psi_spec() -> DerivedView {
    DerivedView {
        name: "psi",
        description: Some("A unit of measurement of pressure or of stress based on avoirdupois units. Equal to 6.894757 kPa."),
        link: Some("https://en.wikipedia.org/wiki/Pound_per_square_inch"),
        expand: pascal_units_spec() + seq![constant(Decimal { mantissa: 6894757, exponent: -6i32 }, 3)],
        aliases: &[],
        metric: false,
    }
}

/// A unit of measurement of pressure or of stress based on avoirdupois
/// units. Equal to 6.894757 kPa.
pub fn psi() -> (unit: DerivedConversion)
    ensures
        unit@ == psi_spec(),
{
    let mut expand: Vec<Unit> = pascal_units();
    expand.push(constant(Decimal { mantissa: 6894757, exponent: -6i32 }, 3));
    assert(expand@ =~= psi_spec().expand);
    DerivedConversion {
        name: "psi",
        description: Some("A unit of measurement of pressure or of stress based on avoirdupois units. Equal to 6.894757 kPa."),
        link: Some("https://en.wikipedia.org/wiki/Pound_per_square_inch"),
        expand,
        aliases: &[],
        metric: false,
    }
}

/// The unit `bar` as a value.
pub open spec fn bar_spec() -> DerivedView {
    DerivedView {
        name: "bar",
        description: Some("Exactly 100,000 Pa."),
        link: Some("https://en.wikipedia.org/wiki/Bar_(unit)"),
        expand: pascal_units_spec() + seq![constant(Decimal { mantissa: 1, exponent: 2 }, 3)],
        aliases: &[],
        metric: true,
    }
}

/// Exactly 100,000 Pa.
pub fn bar() -> (unit: DerivedConversion)
    ensures
        unit@ == bar_spec(),
{
    let mut expand: Vec<Unit> = pascal_units();
    expand.push(constant(Decimal { mantissa: 1, exponent: 2 }, 3));
    assert(expand@ =~= bar_spec().expand);
    DerivedConversion {
        name: "bar",
        description: Some("Exactly 100,000 Pa."),
        link: Some("https://en.wikipedia.org/wiki/Bar_(unit)"),
        expand,
        aliases: &[],
        metric: true,
    }
}

/// The unit `atm` as a value.
pub open spec fn atm_spec() -> DerivedView {
    DerivedView {
        name: "atm",
        description: Some("Equal to 101325 Pa."),
        link: Some("https://en.wikipedia.org/wiki/Standard_atmosphere_(unit)"),
        expand: pascal_units_spec() + seq![constant(Decimal { mantissa: 101325, exponent: -3i32 }, 3)],
        aliases: &[],
        metric: false,
    }
}

/// Equal to 101325 Pa.
pub fn atm() -> (unit: DerivedConversion)
    ensures
        unit@ == atm_spec(),
{
    let mut expand: Vec<Unit> = pascal_units();
    expand.push(constant(Decimal { mantissa: 101325, exponent: -3i32 }, 3));
    assert(expand@ =~= atm_spec().expand);
    DerivedConversion {
        name: "atm",
        description: Some("Equal to 101325 Pa."),
        link: Some("https://en.wikipedia.org/wiki/Standard_atmosphere_(unit)"),
        expand,
        aliases: &[],
        metric: false,
    }
}

/// The unit `torr` as a value.
pub open spec fn torr_spec() -> DerivedView {
    DerivedView {
        name: "torr",
        description: Some("Exactly 1/760 of a standard atmosphere (101325 Pa). Thus one torr is exactly 101325/760 pascals (about  133.32 Pa)."),
        link: Some("https://en.wikipedia.org/wiki/Torr"),
        expand: pascal_units_spec() + seq![constant(Decimal { mantissa: 133322, exponent: -3i32 }, 0)],
        aliases: &[],
        metric: false,
    }
}

/// Exactly 1/760 of a standard atmosphere (101325 Pa). Thus one torr is
/// exactly 101325/760 pascals (about 133.32 Pa).
pub fn torr() -> (unit: DerivedConversion)
    ensures
        unit@ == torr_spec(),
{
    let mut expand: Vec<Unit> = pascal_units();
    expand.push(constant(Decimal { mantissa: 133322, exponent: -3i32 }, 0));
    assert(expand@ =~= torr_spec().expand);
    DerivedConversion {
        name: "torr",
        description: Some("Exactly 1/760 of a standard atmosphere (101325 Pa). Thus one torr is exactly 101325/760 pascals (about  133.32 Pa)."),
        link: Some("https://en.wikipedia.org/wiki/Torr"),
        expand,
        aliases: &[],
        metric: false,
    }
}

/// The units of this group as values.
pub open spec fn units_spec() -> Seq<DerivedView> {
    seq![
        pascal_spec(),
        psi_spec(),
        bar_spec(),
        atm_spec(),
        torr_spec(),
    ]
}

/// All units of this group.
pub fn units() -> (units: Vec<DerivedConversion>)
    ensures
        group_view(units@) == units_spec(),
{
    let mut units: Vec<DerivedConversion> = Vec::new();
    units.push(pascal());
    units.push(psi());
    units.push(bar());
    units.push(atm());
    units.push(torr());
    assert(group_view(units@) =~= units_spec());
    units
}

} // verus!
