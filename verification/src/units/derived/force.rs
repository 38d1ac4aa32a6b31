//! Units of force.

use super::{constant, group_view, DerivedConversion, DerivedView};
use crate::dimension::Unit;
use crate::units::{length, mass, time, Decimal};
use vstd::prelude::*;

verus! {

/// The units whose product is one newton, as a value.
pub open spec fn newton_units_spec() -> Seq<Unit> {
    seq![
        Unit { conversion: mass::gram(), power: 1, sci_exponent: 3 },
        Unit { conversion: length::meter(), power: 1, sci_exponent: 0 },
        Unit { conversion: time::second(), power: -2i64, sci_exponent: 0 },
    ]
}

/// The units whose product is one newton.
fn newton_units() -> (units: Vec<Unit>)
    ensures
        units@ == newton_units_spec(),
{
    let mut units: Vec<Unit> = Vec::new();
    units.push(Unit::new(mass::gram(), 1, 3));
    units.push(Unit::new(length::meter(), 1, 0));
    units.push(Unit::new(time::second(), -2, 0));
    assert(units@ =~= newton_units_spec());
    units
}

/// The unit `newton` as a value.
pub open spec fn newton_spec() -> DerivedView {
    DerivedView {
        name: "newton",
        description: Some("The unit of force in the International System of Units."),
        link: Some("https://en.wikipedia.org/wiki/Newton_(unit)"),
        expand: newton_units_spec(),
        aliases: &["N"],
        metric: true,
    }
}

/// The unit of force in the International System of Units.
pub fn newton() -> (unit: DerivedConversion)
    ensures
        unit@ == newton_spec(),
{
    let expand: Vec<Unit> = newton_units();
    assert(expand@ =~= newton_spec().expand);
    DerivedConversion {
        name: "newton",
        description: Some("The unit of force in the International System of Units."),
        link: Some("https://en.wikipedia.org/wiki/Newton_(unit)"),
        expand,
        aliases: &["N"],
        metric: true,
    }
}

/// The unit `poundforce` as a value.
pub open spec fn pound_force_spec() -> DerivedView {
    DerivedView {
        name: "poundforce",
        description: Some("Equal to 4.448222 N. Originally defined as the gravitational force exerted on a mass of one avoirdupois pound on the surface of Earth."),
        link: Some("https://en.wikipedia.org/wiki/Pound_(force)"),
        expand: newton_units_spec() + seq![constant(Decimal { mantissa: 4448222, exponent: -6i32 }, 0)],
        aliases: &["lbf"],
        metric: true,
    }
}

/// Equal to 4.448222 N. Originally defined as the gravitational force
/// exerted on a mass of one avoirdupois pound on the surface of Earth.
pub fn pound_force() -> (unit: DerivedConversion)
    ensures
        unit@ == pound_force_spec(),
{
    let mut expand: Vec<Unit> = newton_units();
    expand.push(constant(Decimal { mantissa: 4448222, exponent: -6i32 }, 0));
    assert(expand@ =~= pound_force_spec().expand);
    DerivedConversion {
        name: "poundforce",
        description: Some("Equal to 4.448222 N. Originally defined as the gravitational force exerted on a mass of one avoirdupois pound on the surface of Earth."),
        link: Some("https://en.wikipedia.org/wiki/Pound_(force)"),
        expand,
        aliases: &["lbf"],
        metric: true,
    }
}

/// The unit `dyne` as a value.
pub open spec fn dyne_spec() -> DerivedView {
    DerivedView {
        name: "dyne",
        description: Some("Equal to 10^{-5} N. From the the centimetre-gram-second system."),
        link: Some("https://en.wikipedia.org/wiki/Dyne"),
        expand: newton_units_spec() + seq![constant(Decimal { mantissa: 1, exponent: -5i32 }, 0)],
        aliases: &["dyn"],
        metric: false,
    }
}

/// Equal to 10^{-5} N. From the the centimetre-gram-second system.
pub fn dyne() -> (unit: DerivedConversion)
    ensures
        unit@ == dyne_spec(),
{
    let mut expand: Vec<Unit> = newton_units();
    expand.push(constant(Decimal { mantissa: 1, exponent: -5i32 }, 0));
    assert(expand@ =~= dyne_spec().expand);
    DerivedConversion {
        name: "dyne",
        description: Some("Equal to 10^{-5} N. From the the centimetre-gram-second system."),
        link: Some("https://en.wikipedia.org/wiki/Dyne"),
        expand,
        aliases: &["dyn"],
        metric: false,
    }
}

/// The unit `kip` as a value.
pub open spec fn kip_spec() -> DerivedView {
    DerivedView {
        name: "kip",
        description: Some("Equal to 1000 pounds-force. Used primarily by structural engineers."),
        link: None,
        expand: newton_units_spec() + seq![constant(Decimal { mantissa: 4448222, exponent: -3i32 }, 0)],
        aliases: &[],
        metric: false,
    }
}

/// Equal to 1000 pounds-force. Used primarily by structural engineers.
pub fn kip() -> (unit: DerivedConversion)
    ensures
        unit@ == kip_spec(),
{
    let mut expand: Vec<Unit> = newton_units();
    expand.push(constant(Decimal { mantissa: 4448222, exponent: -3i32 }, 0));
    assert(expand@ =~= kip_spec().expand);
    DerivedConversion {
        name: "kip",
        description: Some("Equal to 1000 pounds-force. Used primarily by structural engineers."),
        link: None,
        expand,
        aliases: &[],
        metric: false,
    }
}

/// The unit `kilopond` as a value.
pub open spec fn kilopond_spec() -> DerivedView {
    DerivedView {
        name: "kilopond",
        description: Some("Equal to the magnitude of the force exerted on one kilogram of mass in a 9.80665 m/s2 gravitational field."),
        link: Some("https://en.wikipedia.org/wiki/Kilogram-force"),
        expand: newton_units_spec() + seq![constant(Decimal { mantissa: 980665, exponent: -5i32 }, 0)],
        aliases: &["kilogram force"],
        metric: false,
    }
}

/// Equal to the magnitude of the force exerted on one kilogram of mass in a
/// 9.80665 m/s2 gravitational field.
pub fn kilopond() -> (unit: DerivedConversion)
    ensures
        unit@ == kilopond_spec(),
{
    let mut expand: Vec<Unit> = newton_units();
    expand.push(constant(Decimal { mantissa: 980665, exponent: -5i32 }, 0));
    assert(expand@ =~= kilopond_spec().expand);
    DerivedConversion {
        name: "kilopond",
        description: Some("Equal to the magnitude of the force exerted on one kilogram of mass in a 9.80665 m/s2 gravitational field."),
        link: Some("https://en.wikipedia.org/wiki/Kilogram-force"),
        expand,
        aliases: &["kilogram force"],
        metric: false,
    }
}

/// The unit `poundal` as a value.
pub open spec fn poundal_spec() -> DerivedView {
    DerivedView {
        name: "poundal",
        description: Some("The force necessary to accelerate 1 pound-mass at 1 foot per second per second. Equal to 0.138254954376 N."),
        link: Some("https://en.wikipedia.org/wiki/Poundal"),
        expand: seq![
            Unit { conversion: mass::pound(), power: 1, sci_exponent: 0 },
            Unit { conversion: length::foot(), power: 1, sci_exponent: 0 },
            Unit { conversion: time::second(), power: -2i64, sci_exponent: 0 },
        ],
        aliases: &["pdl"],
        metric: false,
    }
}

/// The force necessary to accelerate 1 pound-mass at 1 foot per second per
/// second. Equal to 0.138254954376 N.
pub fn poundal() -> (unit: DerivedConversion)
    ensures
        unit@ == poundal_spec(),
{
    let mut expand: Vec<Unit> = Vec::new();
    expand.push(Unit::new(mass::pound(), 1, 0));
    expand.push(Unit::new(length::foot(), 1, 0));
    expand.push(Unit::new(time::second(), -2, 0));
    assert(expand@ =~= poundal_spec().expand);
    DerivedConversion {
        name: "poundal",
        description: Some("The force necessary to accelerate 1 pound-mass at 1 foot per second per second. Equal to 0.138254954376 N."),
        link: Some("https://en.wikipedia.org/wiki/Poundal"),
        expand,
        aliases: &["pdl"],
        metric: false,
    }
}

/// The units of this group as values.
pub open spec fn units_spec() -> Seq<DerivedView> {
    seq![
        newton_spec(),
        pound_force_spec(),
        dyne_spec(),
        kip_spec(),
        kilopond_spec(),
        poundal_spec(),
    ]
}

/// All units of this group.
pub fn units() -> (units: Vec<DerivedConversion>)
    ensures
        group_view(units@) == units_spec(),
{
    let mut units: Vec<DerivedConversion> = Vec::new();
    units.push(newton());
    units.push(pound_force());
    units.push(dyne());
    units.push(kip());
    units.push(kilopond());
    units.push(poundal());
    assert(group_view(units@) =~= units_spec());
    units
}

} // verus!
