//! Units of energy and power.

use super::{constant, group_view, DerivedConversion, DerivedView};
use crate::dimension::Unit;
use crate::units::{length, mass, time, Decimal};
use vstd::prelude::*;

verus! {

/// The units whose product is one joule, as a value.
pub open spec fn joule_units_spec() -> Seq<Unit> {
    seq![
        Unit { conversion: mass::gram(), power: 1, sci_exponent: 3 },
        Unit { conversion: length::meter(), power: 2, sci_exponent: 0 },
        Unit { conversion: time::second(), power: -2i64, sci_exponent: 0 },
    ]
}

/// The units whose product is one joule.
fn joule_units() -> (units: Vec<Unit>)
    ensures
        units@ == joule_units_spec(),
{
    let mut units: Vec<Unit> = Vec::new();
    units.push(Unit::new(mass::gram(), 1, 3));
    units.push(Unit::new(length::meter(), 2, 0));
    units.push(Unit::new(time::second(), -2, 0));
    assert(units@ =~= joule_units_spec());
    units
}

/// The unit `joule` as a value.
pub open spec fn joule_spec() -> DerivedView {
    DerivedView {
        name: "joule",
        description: Some("Unit of energy in the International System of Units. It is equal to the amount of work done when a force of 1 newton displaces a mass through a distance of 1 metre in the direction of the force applied."),
        link: Some("https://en.wikipedia.org/wiki/Joule"),
        expand: joule_units_spec(),
        aliases: &["J"],
        metric: true,
    }
}

/// Unit of energy in the International System of Units. It is equal to the
/// amount of work done when a force of 1 newton displaces a mass through a
/// distance of 1 metre in the direction of the force applied.
pub fn joule() -> (unit: DerivedConversion)
    ensures
        unit@ == joule_spec(),
{
    let expand: Vec<Unit> = joule_units();
    assert(expand@ =~= joule_spec().expand);
    DerivedConversion {
        name: "joule",
        description: Some("Unit of energy in the International System of Units. It is equal to the amount of work done when a force of 1 newton displaces a mass through a distance of 1 metre in the direction of the force applied."),
        link: Some("https://en.wikipedia.org/wiki/Joule"),
        expand,
        aliases: &["J"],
        metric: true,
    }
}

/// The unit `watt` as a value.
pub open spec fn watt_spec() -> DerivedView {
    DerivedView {
        name: "watt",
        description: Some("Unit of power or radiant flux in the International System of Units. Equal to 1 joule per second or 1 kg*m^2*s^{-3}"),
        link: Some("https://en.wikipedia.org/wiki/Watt"),
        expand: seq![
            Unit { conversion: mass::gram(), power: 1, sci_exponent: 3 },
            Unit { conversion: length::meter(), power: 2, sci_exponent: 0 },
            Unit { conversion: time::second(), power: -3i64, sci_exponent: 0 },
        ],
        aliases: &["W"],
        metric: true,
    }
}

/// Unit of power or radiant flux in the International System of Units.
/// Equal to 1 joule per second or 1 kg*m^2*s^{-3}
pub fn watt() -> (unit: DerivedConversion)
    ensures
        unit@ == watt_spec(),
{
    let mut expand: Vec<Unit> = Vec::new();
    expand.push(Unit::new(mass::gram(), 1, 3));
    expand.push(Unit::new(length::meter(), 2, 0));
    expand.push(Unit::new(time::second(), -3, 0));
    assert(expand@ =~= watt_spec().expand);
    DerivedConversion {
        name: "watt",
        description: Some("Unit of power or radiant flux in the International System of Units. Equal to 1 joule per second or 1 kg*m^2*s^{-3}"),
        link: Some("https://en.wikipedia.org/wiki/Watt"),
        expand,
        aliases: &["W"],
        metric: true,
    }
}

/// The unit `btu` as a value.
pub open spec fn btu_spec() -> DerivedView {
    DerivedView {
        name: "btu",
        description: Some("British thermal unit. 1,054.35 J."),
        link: Some("https://en.wikipedia.org/wiki/British_thermal_unit"),
        expand: joule_units_spec() + seq![constant(Decimal { mantissa: 105506, exponent: -2i32 }, 0)],
        aliases: &[],
        metric: true,
    }
}

/// British thermal unit. 1,054.35 J.
pub fn btu() -> (unit: DerivedConversion)
    ensures
        unit@ == btu_spec(),
{
    let mut expand: Vec<Unit> = joule_units();
    expand.push(constant(Decimal { mantissa: 105506, exponent: -2i32 }, 0));
    assert(expand@ =~= btu_spec().expand);
    DerivedConversion {
        name: "btu",
        description: Some("British thermal unit. 1,054.35 J."),
        link: Some("https://en.wikipedia.org/wiki/British_thermal_unit"),
        expand,
        aliases: &[],
        metric: true,
    }
}

/// The unit `calorie` as a value.
pub open spec fn calorie_spec() -> DerivedView {
    DerivedView {
        name: "calorie",
        description: Some("Unit of energy that originated from the obsolete caloric theory of heat. Equal to 4.184 J."),
        link: Some("https://en.wikipedia.org/wiki/Calorie"),
        expand: joule_units_spec() + seq![constant(Decimal { mantissa: 4184, exponent: -3i32 }, 0)],
        aliases: &["cal"],
        metric: true,
    }
}

/// Unit of energy that originated from the obsolete caloric theory of heat.
/// Equal to 4.184 J.
pub fn calorie() -> (unit: DerivedConversion)
    ensures
        unit@ == calorie_spec(),
{
    let mut expand: Vec<Unit> = joule_units();
    expand.push(constant(Decimal { mantissa: 4184, exponent: -3i32 }, 0));
    assert(expand@ =~= calorie_spec().expand);
    DerivedConversion {
        name: "calorie",
        description: Some("Unit of energy that originated from the obsolete caloric theory of heat. Equal to 4.184 J."),
        link: Some("https://en.wikipedia.org/wiki/Calorie"),
        expand,
        aliases: &["cal"],
        metric: true,
    }
}

/// The unit `electronvolt` as a value.
pub open spec fn electronvolt_spec() -> DerivedView {
    DerivedView {
        name: "electronvolt",
        description: Some("The measure of an amount of kinetic energy gained by a single electron accelerating from rest through an electric potential difference of one volt in vacuum. Equal to 1.602176634*10^{-19} J."),
        link: Some("https://en.wikipedia.org/wiki/Electronvolt"),
        expand: joule_units_spec() + seq![constant(Decimal { mantissa: 1602176634, exponent: -28i32 }, 0)],
        aliases: &["eV"],
        metric: true,
    }
}

/// The measure of an amount of kinetic energy gained by a single electron
/// accelerating from rest through an electric potential difference of one
/// volt in vacuum. Equal to 1.602176634*10^{-19} J.
pub fn electronvolt() -> (unit: DerivedConversion)
    ensures
        unit@ == electronvolt_spec(),
{
    let mut expand: Vec<Unit> = joule_units();
    expand.push(constant(Decimal { mantissa: 1602176634, exponent: -28i32 }, 0));
    assert(expand@ =~= electronvolt_spec().expand);
    DerivedConversion {
        name: "electronvolt",
        description: Some("The measure of an amount of kinetic energy gained by a single electron accelerating from rest through an electric potential difference of one volt in vacuum. Equal to 1.602176634*10^{-19} J."),
        link: Some("https://en.wikipedia.org/wiki/Electronvolt"),
        expand,
        aliases: &["eV"],
        metric: true,
    }
}

/// The unit `erg` as a value.
pub open spec fn erg_spec() -> DerivedView {
    DerivedView {
        name: "erg",
        description: Some("From the Centimetre-gram-second system of units. Equal to 10^{-7} J."),
        link: None,
        expand: joule_units_spec() + seq![constant(Decimal { mantissa: 1, exponent: -7i32 }, 0)],
        aliases: &[],
        metric: true,
    }
}

/// From the Centimetre-gram-second system of units. Equal to 10^{-7} J.
pub fn erg() -> (unit: DerivedConversion)
    ensures
        unit@ == erg_spec(),
{
    let mut expand: Vec<Unit> = joule_units();
    expand.push(constant(Decimal { mantissa: 1, exponent: -7i32 }, 0));
    assert(expand@ =~= erg_spec().expand);
    DerivedConversion {
        name: "erg",
        description: Some("From the Centimetre-gram-second system of units. Equal to 10^{-7} J."),
        link: None,
        expand,
        aliases: &[],
        metric: true,
    }
}

/// The units of this group as values.
pub open spec fn units_spec() -> Seq<DerivedView> {
    seq![
        joule_spec(),
        watt_spec(),
        btu_spec(),
        calorie_spec(),
        electronvolt_spec(),
        erg_spec(),
    ]
}

/// All units of this group.
pub fn units() -> (units: Vec<DerivedConversion>)
    ensures
        group_view(units@) == units_spec(),
{
    let mut units: Vec<DerivedConversion> = Vec::new();
    units.push(joule());
    units.push(watt());
    units.push(btu());
    units.push(calorie());
    units.push(electronvolt());
    units.push(erg());
    assert(group_view(units@) =~= units_spec());
    units
}

} // verus!
