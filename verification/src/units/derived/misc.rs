//! Derived units that stand alone.

use super::{constant, group_view, DerivedConversion, DerivedView};
use crate::dimension::Unit;
use crate::units::{angle, electric_current, length, luminous_intensity, mass, quantity, time, Decimal};
use vstd::prelude::*;

verus! {

/// The units whose product is one weber, as a value.
pub open spec fn weber_units_spec() -> Seq<Unit> {
    seq![
        Unit { conversion: mass::gram(), power: 1, sci_exponent: 3 },
        Unit { conversion: length::meter(), power: 2, sci_exponent: 0 },
        Unit { conversion: time::second(), power: -2i64, sci_exponent: 0 },
        Unit { conversion: electric_current::ampere(), power: -1i64, sci_exponent: 0 },
    ]
}

/// The units whose product is one weber.
fn weber_units() -> (units: Vec<Unit>)
    ensures
        units@ == weber_units_spec(),
{
    let mut units: Vec<Unit> = Vec::new();
    units.push(Unit::new(mass::gram(), 1, 3));
    units.push(Unit::new(length::meter(), 2, 0));
    units.push(Unit::new(time::second(), -2, 0));
    units.push(Unit::new(electric_current::ampere(), -1, 0));
    assert(units@ =~= weber_units_spec());
    units
}

/// The unit `hz` as a value.
pub open spec fn hz_spec() -> DerivedView {
    DerivedView {
        name: "hz",
        description: Some("The unit of frequency in the International System of Units. Equal to 1 cycle per second."),
        link: Some("https://en.wikipedia.org/wiki/Hertz"),
        expand: seq![
            Unit { conversion: time::second(), power: -1i64, sci_exponent: 0 },
        ],
        aliases: &[],
        metric: true,
    }
}

/// The unit of frequency in the International System of Units. Equal to 1
/// cycle per second.
pub fn hz() -> (unit: DerivedConversion)
    ensures
        unit@ == hz_spec(),
{
    let mut expand: Vec<Unit> = Vec::new();
    expand.push(Unit::new(time::second(), -1, 0));
    assert(expand@ =~= hz_spec().expand);
    DerivedConversion {
        name: "hz",
        description: Some("The unit of frequency in the International System of Units. Equal to 1 cycle per second."),
        link: Some("https://en.wikipedia.org/wiki/Hertz"),
        expand,
        aliases: &[],
        metric: true,
    }
}

/// The unit `farad` as a value.
pub open spec fn farad_spec() -> DerivedView {
    DerivedView {
        name: "farad",
        description: Some("The unit of electrical capacitance in the International System of Units. Equal to 1 coulomb per volt."),
        link: Some("https://en.wikipedia.org/wiki/Farad"),
        expand: seq![
            Unit { conversion: mass::gram(), power: -1i64, sci_exponent: 3 },
            Unit { conversion: length::meter(), power: -2i64, sci_exponent: 0 },
            Unit { conversion: time::second(), power: 4, sci_exponent: 0 },
            Unit { conversion: electric_current::ampere(), power: 2, sci_exponent: 0 },
        ],
        aliases: &["F"],
        metric: true,
    }
}

/// The unit of electrical capacitance in the International System of Units.
/// Equal to 1 coulomb per volt.
pub fn farad() -> (unit: DerivedConversion)
    ensures
        unit@ == farad_spec(),
{
    let mut expand: Vec<Unit> = Vec::new();
    expand.push(Unit::new(mass::gram(), -1, 3));
    expand.push(Unit::new(length::meter(), -2, 0));
    expand.push(Unit::new(time::second(), 4, 0));
    expand.push(Unit::new(electric_current::ampere(), 2, 0));
    assert(expand@ =~= farad_spec().expand);
    DerivedConversion {
        name: "farad",
        description: Some("The unit of electrical capacitance in the International System of Units. Equal to 1 coulomb per volt."),
        link: Some("https://en.wikipedia.org/wiki/Farad"),
        expand,
        aliases: &["F"],
        metric: true,
    }
}

/// The unit `ohm` as a value.
pub open spec fn ohm_spec() -> DerivedView {
    DerivedView {
        name: "ohm",
        description: Some("The unit of electrical resistance in the International System of Units."),
        link: Some("https://en.wikipedia.org/wiki/Ohm"),
        expand: seq![
            Unit { conversion: mass::gram(), power: 1, sci_exponent: 3 },
            Unit { conversion: length::meter(), power: 2, sci_exponent: 0 },
            Unit { conversion: time::second(), power: -3i64, sci_exponent: 0 },
            Unit { conversion: electric_current::ampere(), power: -2i64, sci_exponent: 0 },
        ],
        aliases: &["Ω"],
        metric: true,
    }
}

/// The unit of electrical resistance in the International System of Units.
pub fn ohm() -> (unit: DerivedConversion)
    ensures
        unit@ == ohm_spec(),
{
    let mut expand: Vec<Unit> = Vec::new();
    expand.push(Unit::new(mass::gram(), 1, 3));
    expand.push(Unit::new(length::meter(), 2, 0));
    expand.push(Unit::new(time::second(), -3, 0));
    expand.push(Unit::new(electric_current::ampere(), -2, 0));
    assert(expand@ =~= ohm_spec().expand);
    DerivedConversion {
        name: "ohm",
        description: Some("The unit of electrical resistance in the International System of Units."),
        link: Some("https://en.wikipedia.org/wiki/Ohm"),
        expand,
        aliases: &["Ω"],
        metric: true,
    }
}

/// The unit `siemens` as a value.
pub open spec fn siemens_spec() -> DerivedView {
    DerivedView {
        name: "siemens",
        description: Some("The unit of electric conductance, electric susceptance, and electric admittance in the International System of Units."),
        link: Some("https://en.wikipedia.org/wiki/Siemens_(unit)"),
        expand: seq![
            Unit { conversion: mass::gram(), power: -1i64, sci_exponent: 3 },
            Unit { conversion: length::meter(), power: -2i64, sci_exponent: 0 },
            Unit { conversion: time::second(), power: 3, sci_exponent: 0 },
            Unit { conversion: electric_current::ampere(), power: 2, sci_exponent: 0 },
        ],
        aliases: &["S", "mho", "℧"],
        metric: true,
    }
}

/// The unit of electric conductance, electric susceptance, and electric
/// admittance in the International System of Units.
pub fn siemens() -> (unit: DerivedConversion)
    ensures
        unit@ == siemens_spec(),
{
    let mut expand: Vec<Unit> = Vec::new();
    expand.push(Unit::new(mass::gram(), -1, 3));
    expand.push(Unit::new(length::meter(), -2, 0));
    expand.push(Unit::new(time::second(), 3, 0));
    expand.push(Unit::new(electric_current::ampere(), 2, 0));
    assert(expand@ =~= siemens_spec().expand);
    DerivedConversion {
        name: "siemens",
        description: Some("The unit of electric conductance, electric susceptance, and electric admittance in the International System of Units."),
        link: Some("https://en.wikipedia.org/wiki/Siemens_(unit)"),
        expand,
        aliases: &["S", "mho", "℧"],
        metric: true,
    }
}

/// The unit `weber` as a value.
pub open spec fn weber_spec() -> DerivedView {
    DerivedView {
        name: "weber",
        description: Some("The unit of magnetic flux in the International System of Units."),
        link: Some("https://en.wikipedia.org/wiki/Weber_(unit)"),
        expand: weber_units_spec(),
        aliases: &["Wb"],
        metric: true,
    }
}

/// The unit of magnetic flux in the International System of Units.
pub fn weber() -> (unit: DerivedConversion)
    ensures
        unit@ == weber_spec(),
{
    let expand: Vec<Unit> = weber_units();
    assert(expand@ =~= weber_spec().expand);
    DerivedConversion {
        name: "weber",
        description: Some("The unit of magnetic flux in the International System of Units."),
        link: Some("https://en.wikipedia.org/wiki/Weber_(unit)"),
        expand,
        aliases: &["Wb"],
        metric: true,
    }
}

/// The unit `maxwell` as a value.
pub open spec fn maxwell_spec() -> DerivedView {
    DerivedView {
        name: "maxwell",
        description: Some("The CGS (centimetre-gram-second) unit of magnetic flux."),
        link: Some("https://en.wikipedia.org/wiki/Maxwell_%28unit%29"),
        expand: weber_units_spec() + seq![constant(Decimal { mantissa: 1, exponent: -8i32 }, 0)],
        aliases: &["Mx"],
        metric: false,
    }
}

/// The CGS (centimetre-gram-second) unit of magnetic flux.
pub fn maxwell() -> (unit: DerivedConversion)
    ensures
        unit@ == maxwell_spec(),
{
    let mut expand: Vec<Unit> = weber_units();
    expand.push(constant(Decimal { mantissa: 1, exponent: -8i32 }, 0));
    assert(expand@ =~= maxwell_spec().expand);
    DerivedConversion {
        name: "maxwell",
        description: Some("The CGS (centimetre-gram-second) unit of magnetic flux."),
        link: Some("https://en.wikipedia.org/wiki/Maxwell_%28unit%29"),
        expand,
        aliases: &["Mx"],
        metric: false,
    }
}

/// The unit `tesla` as a value.
pub open spec fn tesla_spec() -> DerivedView {
    DerivedView {
        name: "tesla",
        description: Some("The unit of magnetic flux density (also called magnetic B-field strength) in the International System of Units."),
        link: Some("https://en.wikipedia.org/wiki/Tesla_(unit)"),
        expand: seq![
            Unit { conversion: mass::gram(), power: 1, sci_exponent: 3 },
            Unit { conversion: time::second(), power: -2i64, sci_exponent: 0 },
            Unit { conversion: electric_current::ampere(), power: -1i64, sci_exponent: 0 },
        ],
        aliases: &["T"],
        metric: true,
    }
}

/// The unit of magnetic flux density (also called magnetic B-field
/// strength) in the International System of Units.
pub fn tesla() -> (unit: DerivedConversion)
    ensures
        unit@ == tesla_spec(),
{
    let mut expand: Vec<Unit> = Vec::new();
    expand.push(Unit::new(mass::gram(), 1, 3));
    expand.push(Unit::new(time::second(), -2, 0));
    expand.push(Unit::new(electric_current::ampere(), -1, 0));
    assert(expand@ =~= tesla_spec().expand);
    DerivedConversion {
        name: "tesla",
        description: Some("The unit of magnetic flux density (also called magnetic B-field strength) in the International System of Units."),
        link: Some("https://en.wikipedia.org/wiki/Tesla_(unit)"),
        expand,
        aliases: &["T"],
        metric: true,
    }
}

/// The unit `henry` as a value.
pub open spec fn henry_spec() -> DerivedView {
    DerivedView {
        name: "henry",
        description: Some("The unit of electrical inductance in the International System of Units."),
        link: Some("https://en.wikipedia.org/wiki/Henry_(unit)"),
        expand: seq![
            Unit { conversion: mass::gram(), power: 1, sci_exponent: 3 },
            Unit { conversion: length::meter(), power: 2, sci_exponent: 0 },
            Unit { conversion: time::second(), power: -2i64, sci_exponent: 0 },
            Unit { conversion: electric_current::ampere(), power: -2i64, sci_exponent: 0 },
        ],
        aliases: &["H"],
        metric: true,
    }
}

/// The unit of electrical inductance in the International System of Units.
pub fn henry() -> (unit: DerivedConversion)
    ensures
        unit@ == henry_spec(),
{
    let mut expand: Vec<Unit> = Vec::new();
    expand.push(Unit::new(mass::gram(), 1, 3));
    expand.push(Unit::new(length::meter(), 2, 0));
    expand.push(Unit::new(time::second(), -2, 0));
    expand.push(Unit::new(electric_current::ampere(), -2, 0));
    assert(expand@ =~= henry_spec().expand);
    DerivedConversion {
        name: "henry",
        description: Some("The unit of electrical inductance in the International System of Units."),
        link: Some("https://en.wikipedia.org/wiki/Henry_(unit)"),
        expand,
        aliases: &["H"],
        metric: true,
    }
}

/// The unit `lumen` as a value.
pub open spec fn lumen_spec() -> DerivedView {
    DerivedView {
        name: "lumen",
        description: Some("The unit of luminous flux, a measure of the total quantity of visible light emitted by a source per unit of time, in the International System of Units."),
        link: Some("https://en.wikipedia.org/wiki/Lumen_(unit)"),
        expand: seq![
            Unit { conversion: luminous_intensity::candela(), power: 1, sci_exponent: 0 },
            Unit { conversion: angle::steradian(), power: 1, sci_exponent: 0 },
        ],
        aliases: &["lm"],
        metric: false,
    }
}

/// The unit of luminous flux, a measure of the total quantity of visible
/// light emitted by a source per unit of time, in the International System
/// of Units.
pub fn lumen() -> (unit: DerivedConversion)
    ensures
        unit@ == lumen_spec(),
{
    let mut expand: Vec<Unit> = Vec::new();
    expand.push(Unit::new(luminous_intensity::candela(), 1, 0));
    expand.push(Unit::new(angle::steradian(), 1, 0));
    assert(expand@ =~= lumen_spec().expand);
    DerivedConversion {
        name: "lumen",
        description: Some("The unit of luminous flux, a measure of the total quantity of visible light emitted by a source per unit of time, in the International System of Units."),
        link: Some("https://en.wikipedia.org/wiki/Lumen_(unit)"),
        expand,
        aliases: &["lm"],
        metric: false,
    }
}

/// The unit `katal` as a value.
pub open spec fn katal_spec() -> DerivedView {
    DerivedView {
        name: "katal",
        description: Some("The unit of catalytic activity in the International System of Units."),
        link: Some("https://en.wikipedia.org/wiki/Katal"),
        expand: seq![
            Unit { conversion: quantity::mole(), power: 1, sci_exponent: 0 },
            Unit { conversion: time::second(), power: -1i64, sci_exponent: 0 },
        ],
        aliases: &["kat"],
        metric: true,
    }
}

/// The unit of catalytic activity in the International System of Units.
pub fn katal() -> (unit: DerivedConversion)
    ensures
        unit@ == katal_spec(),
{
    let mut expand: Vec<Unit> = Vec::new();
    expand.push(Unit::new(quantity::mole(), 1, 0));
    expand.push(Unit::new(time::second(), -1, 0));
    assert(expand@ =~= katal_spec().expand);
    DerivedConversion {
        name: "katal",
        description: Some("The unit of catalytic activity in the International System of Units."),
        link: Some("https://en.wikipedia.org/wiki/Katal"),
        expand,
        aliases: &["kat"],
        metric: true,
    }
}

/// The units of this group as values.
pub open spec fn units_spec() -> Seq<DerivedView> {
    seq![
        hz_spec(),
        farad_spec(),
        ohm_spec(),
        siemens_spec(),
        weber_spec(),
        maxwell_spec(),
        tesla_spec(),
        henry_spec(),
        lumen_spec(),
        katal_spec(),
    ]
}

/// All units of this group.
pub fn units() -> (units: Vec<DerivedConversion>)
    ensures
        group_view(units@) == units_spec(),
{
    let mut units: Vec<DerivedConversion> = Vec::new();
    units.push(hz());
    units.push(farad());
    units.push(ohm());
    units.push(siemens());
    units.push(weber());
    units.push(maxwell());
    units.push(tesla());
    units.push(henry());
    units.push(lumen());
    units.push(katal());
    assert(group_view(units@) =~= units_spec());
    units
}

} // verus!
