//! Units of electric charge.

use super::{constant, group_view, DerivedConversion, DerivedView};
use crate::dimension::Unit;
use crate::units::{electric_current, time, Decimal};
use vstd::prelude::*;

verus! {

/// The units whose product is one coulomb, as a value.
pub open spec fn coulomb_units_spec() -> Seq<Unit> {
    seq![
        Unit { conversion: electric_current::ampere(), power: 1, sci_exponent: 0 },
        Unit { conversion: time::second(), power: 1, sci_exponent: 0 },
    ]
}

/// The units whose product is one coulomb.
fn coulomb_units() -> (units: Vec<Unit>)
    ensures
        units@ == coulomb_units_spec(),
{
    let mut units: Vec<Unit> = Vec::new();
    units.push(Unit::new(electric_current::ampere(), 1, 0));
    units.push(Unit::new(time::second(), 1, 0));
    assert(units@ =~= coulomb_units_spec());
    units
}

/// The unit `coulomb` as a value.
pub open spec fn coulomb_spec() -> DerivedView {
    DerivedView {
        name: "coulomb",
        description: Some("The unit of electric charge in the International System of Units. Equal to the electric charge delivered by a 1 ampere constant current in 1 second."),
        link: Some("https://en.wikipedia.org/wiki/Coulomb"),
        expand: coulomb_units_spec(),
        aliases: &["C"],
        metric: true,
    }
}

/// The unit of electric charge in the International System of Units. Equal
/// to the electric charge delivered by a 1 ampere constant current in 1
/// second.
pub fn coulomb() -> (unit: DerivedConversion)
    ensures
        unit@ == coulomb_spec(),
{
    let expand: Vec<Unit> = coulomb_units();
    assert(expand@ =~= coulomb_spec().expand);
    DerivedConversion {
        name: "coulomb",
        description: Some("The unit of electric charge in the International System of Units. Equal to the electric charge delivered by a 1 ampere constant current in 1 second."),
        link: Some("https://en.wikipedia.org/wiki/Coulomb"),
        expand,
        aliases: &["C"],
        metric: true,
    }
}

/// The unit `elementarycharge` as a value.
pub open spec fn elementary_charge_spec() -> DerivedView {
    DerivedView {
        name: "elementarycharge",
        description: Some("The electric charge carried by a single proton. 1.602176634*10^{-19} C"),
        link: Some("https://en.wikipedia.org/wiki/Elementary_charge"),
        expand: coulomb_units_spec() + seq![constant(Decimal { mantissa: 1602176634, exponent: -28i32 }, 0)],
        aliases: &["e"],
        metric: true,
    }
}

/// The electric charge carried by a single proton. 1.602176634*10^{-19} C
pub fn elementary_charge() -> (unit: DerivedConversion)
    ensures
        unit@ == elementary_charge_spec(),
{
    let mut expand: Vec<Unit> = coulomb_units();
    expand.push(constant(Decimal { mantissa: 1602176634, exponent: -28i32 }, 0));
    assert(expand@ =~= elementary_charge_spec().expand);
    DerivedConversion {
        name: "elementarycharge",
        description: Some("The electric charge carried by a single proton. 1.602176634*10^{-19} C"),
        link: Some("https://en.wikipedia.org/wiki/Elementary_charge"),
        expand,
        aliases: &["e"],
        metric: true,
    }
}

/// The unit `faraday` as a value.
pub open spec fn faraday_spec() -> DerivedView {
    DerivedView {
        name: "faraday",
        description: Some("Defined as the quotient of the total electric charge (q) by the amount (n) of elementary charge carriers in any given sample of matter."),
        link: Some("https://en.wikipedia.org/wiki/Faraday_constant"),
        expand: coulomb_units_spec() + seq![constant(Decimal { mantissa: 964853321233100184, exponent: -13i32 }, 0)],
        aliases: &[],
        metric: true,
    }
}

/// Defined as the quotient of the total electric charge (q) by the amount
/// (n) of elementary charge carriers in any given sample of matter.
pub fn faraday() -> (unit: DerivedConversion)
    ensures
        unit@ == faraday_spec(),
{
    let mut expand: Vec<Unit> = coulomb_units();
    expand.push(constant(Decimal { mantissa: 964853321233100184, exponent: -13i32 }, 0));
    assert(expand@ =~= faraday_spec().expand);
    DerivedConversion {
        name: "faraday",
        description: Some("Defined as the quotient of the total electric charge (q) by the amount (n) of elementary charge carriers in any given sample of matter."),
        link: Some("https://en.wikipedia.org/wiki/Faraday_constant"),
        expand,
        aliases: &[],
        metric: true,
    }
}

/// The unit `amperehour` as a value.
pub open spec fn ampere_hour_spec() -> DerivedView {
    DerivedView {
        name: "amperehour",
        description: Some("Equal to the charge transferred by a steady current of one ampere flowing for one hour, or 3,600 coulombs."),
        link: Some("https://en.wikipedia.org/wiki/Ampere-hour"),
        expand: seq![
            Unit { conversion: electric_current::ampere(), power: 1, sci_exponent: 0 },
            Unit { conversion: time::hour(), power: 1, sci_exponent: 0 },
        ],
        aliases: &["Ah"],
        metric: true,
    }
}

/// Equal to the charge transferred by a steady current of one ampere
/// flowing for one hour, or 3,600 coulombs.
pub fn ampere_hour() -> (unit: DerivedConversion)
    ensures
        unit@ == ampere_hour_spec(),
{
    let mut expand: Vec<Unit> = Vec::new();
    expand.push(Unit::new(electric_current::ampere(), 1, 0));
    expand.push(Unit::new(time::hour(), 1, 0));
    assert(expand@ =~= ampere_hour_spec().expand);
    DerivedConversion {
        name: "amperehour",
        description: Some("Equal to the charge transferred by a steady current of one ampere flowing for one hour, or 3,600 coulombs."),
        link: Some("https://en.wikipedia.org/wiki/Ampere-hour"),
        expand,
        aliases: &["Ah"],
        metric: true,
    }
}

/// The units of this group as values.
pub open spec fn units_spec() -> Seq<DerivedView> {
    seq![
        coulomb_spec(),
        elementary_charge_spec(),
        faraday_spec(),
        ampere_hour_spec(),
    ]
}

/// All units of this group.
pub fn units() -> (units: Vec<DerivedConversion>)
    ensures
        group_view(units@) == units_spec(),
{
    let mut units: Vec<DerivedConversion> = Vec::new();
    units.push(coulomb());
    units.push(elementary_charge());
    units.push(faraday());
    units.push(ampere_hour());
    assert(group_view(units@) =~= units_spec());
    units
}

} // verus!
