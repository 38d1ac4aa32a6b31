//! Units of voltage.

use super::{constant, group_view, DerivedConversion, DerivedView};
use crate::dimension::Unit;
use crate::units::{electric_current, length, mass, time, Decimal};
use vstd::prelude::*;

verus! {

/// The units whose product is one volt, as a value.
pub open spec fn volt_units_spec() -> Seq<Unit> {
    seq![
        Unit { conversion: mass::gram(), power: 1, sci_exponent: 3 },
        Unit { conversion: length::meter(), power: 2, sci_exponent: 0 },
        Unit { conversion: time::second(), power: -3i64, sci_exponent: 0 },
        Unit { conversion: electric_current::ampere(), power: -1i64, sci_exponent: 0 },
    ]
}

/// The units whose product is one volt.
fn volt_units() -> (units: Vec<Unit>)
    ensures
        units@ == volt_units_spec(),
{
    let mut units: Vec<Unit> = Vec::new();
    units.push(Unit::new(mass::gram(), 1, 3));
    units.push(Unit::new(length::meter(), 2, 0));
    units.push(Unit::new(time::second(), -3, 0));
    units.push(Unit::new(electric_current::ampere(), -1, 0));
    assert(units@ =~= volt_units_spec());
    units
}

/// The unit `volt` as a value.
pub open spec fn volt_spec() -> DerivedView {
    DerivedView {
        name: "volt",
        description: Some("Unit of electric potential, electric potential difference (voltage), and electromotive force in the International System of Units."),
        link: Some("https://en.wikipedia.org/wiki/Volt"),
        expand: volt_units_spec(),
        aliases: &["V"],
        metric: true,
    }
}

/// Unit of electric potential, electric potential difference (voltage), and
/// electromotive force in the International System of Units.
pub fn volt() -> (unit: DerivedConversion)
    ensures
        unit@ == volt_spec(),
{
    let expand: Vec<Unit> = volt_units();
    assert(expand@ =~= volt_spec().expand);
    DerivedConversion {
        name: "volt",
        description: Some("Unit of electric potential, electric potential difference (voltage), and electromotive force in the International System of Units."),
        link: Some("https://en.wikipedia.org/wiki/Volt"),
        expand,
        aliases: &["V"],
        metric: true,
    }
}

/// The unit `statvolt` as a value.
pub open spec fn statvolt_spec() -> DerivedView {
    DerivedView {
        name: "statvolt",
        description: Some("Equal to 299.792458 volts."),
        link: Some("https://en.wikipedia.org/wiki/Statvolt"),
        expand: volt_units_spec() + seq![constant(Decimal { mantissa: 299792458, exponent: -6i32 }, 0)],
        aliases: &["statV"],
        metric: true,
    }
}

/// Equal to 299.792458 volts.
pub fn statvolt() -> (unit: DerivedConversion)
    ensures
        unit@ == statvolt_spec(),
{
    let mut expand: Vec<Unit> = volt_units();
    expand.push(constant(Decimal { mantissa: 299792458, exponent: -6i32 }, 0));
    assert(expand@ =~= statvolt_spec().expand);
    DerivedConversion {
        name: "statvolt",
        description: Some("Equal to 299.792458 volts."),
        link: Some("https://en.wikipedia.org/wiki/Statvolt"),
        expand,
        aliases: &["statV"],
        metric: true,
    }
}

/// The units of this group as values.
pub open spec fn units_spec() -> Seq<DerivedView> {
    seq![
        volt_spec(),
        statvolt_spec(),
    ]
}

/// All units of this group.
pub fn units() -> (units: Vec<DerivedConversion>)
    ensures
        group_view(units@) == units_spec(),
{
    let mut units: Vec<DerivedConversion> = Vec::new();
    units.push(volt());
    units.push(statvolt());
    assert(group_view(units@) =~= units_spec());
    units
}

} // verus!
