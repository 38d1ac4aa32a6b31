//! Units of radioactivity.

use super::{constant, group_view, DerivedConversion, DerivedView};
use crate::dimension::Unit;
use crate::units::{time, Decimal};
use vstd::prelude::*;

verus! {

/// The unit `becquerel` as a value.
pub open spec fn becquerel_spec() -> DerivedView {
    DerivedView {
        name: "becquerel",
        description: Some("The unit of radioactivity in the International System of Units."),
        link: Some("https://en.wikipedia.org/wiki/Becquerel"),
        expand: seq![
            Unit { conversion: time::second(), power: -1i64, sci_exponent: 0 },
        ],
        aliases: &["Bq"],
        metric: true,
    }
}

/// The unit of radioactivity in the International System of Units.
pub fn becquerel() -> (unit: DerivedConversion)
    ensures
        unit@ == becquerel_spec(),
{
    let mut expand: Vec<Unit> = Vec::new();
    expand.push(Unit::new(time::second(), -1, 0));
    assert(expand@ =~= becquerel_spec().expand);
    DerivedConversion {
        name: "becquerel",
        description: Some("The unit of radioactivity in the International System of Units."),
        link: Some("https://en.wikipedia.org/wiki/Becquerel"),
        expand,
        aliases: &["Bq"],
        metric: true,
    }
}

/// The unit `curie` as a value.
pub open spec fn curie_spec() -> DerivedView {
    DerivedView {
        name: "curie",
        description: Some("Originally defined as the quantity or mass of radium emanation in equilibrium with one gram of radium (element), but is currently defined as 1 Ci = 3.7*10^{10} decays per second."),
        link: Some("https://en.wikipedia.org/wiki/Curie_(unit)"),
        expand: seq![
            constant(Decimal { mantissa: 37, exponent: 9 }, 0),
            Unit { conversion: time::second(), power: -1i64, sci_exponent: 0 },
        ],
        aliases: &["Ci"],
        metric: true,
    }
}

/// Originally defined as the quantity or mass of radium emanation in
/// equilibrium with one gram of radium (element), but is currently defined
/// as 1 Ci = 3.7*10^{10} decays per second.
pub fn curie() -> (unit: DerivedConversion)
    ensures
        unit@ == curie_spec(),
{
    let mut expand: Vec<Unit> = Vec::new();
    expand.push(constant(Decimal { mantissa: 37, exponent: 9 }, 0));
    expand.push(Unit::new(time::second(), -1, 0));
    assert(expand@ =~= curie_spec().expand);
    DerivedConversion {
        name: "curie",
        description: Some("Originally defined as the quantity or mass of radium emanation in equilibrium with one gram of radium (element), but is currently defined as 1 Ci = 3.7*10^{10} decays per second."),
        link: Some("https://en.wikipedia.org/wiki/Curie_(unit)"),
        expand,
        aliases: &["Ci"],
        metric: true,
    }
}

/// The unit `rutherford` as a value.
pub open spec fn rutherford_spec() -> DerivedView {
    DerivedView {
        name: "rutherford",
        description: Some("Defined as the activity of a quantity of radioactive material in which one million nuclei decay per second."),
        link: Some("https://en.wikipedia.org/wiki/Rutherford_(unit)"),
        expand: seq![
            constant(Decimal { mantissa: 1, exponent: 6 }, 0),
            Unit { conversion: time::second(), power: -1i64, sci_exponent: 0 },
        ],
        aliases: &["Rd"],
        metric: true,
    }
}

/// Defined as the activity of a quantity of radioactive material in which
/// one million nuclei decay per second.
pub fn rutherford() -> (unit: DerivedConversion)
    ensures
        unit@ == rutherford_spec(),
{
    let mut expand: Vec<Unit> = Vec::new();
    expand.push(constant(Decimal { mantissa: 1, exponent: 6 }, 0));
    expand.push(Unit::new(time::second(), -1, 0));
    assert(expand@ =~= rutherford_spec().expand);
    DerivedConversion {
        name: "rutherford",
        description: Some("Defined as the activity of a quantity of radioactive material in which one million nuclei decay per second."),
        link: Some("https://en.wikipedia.org/wiki/Rutherford_(unit)"),
        expand,
        aliases: &["Rd"],
        metric: true,
    }
}

/// The units of this group as values.
pub open spec fn units_spec() -> Seq<DerivedView> {
    seq![
        becquerel_spec(),
        curie_spec(),
        rutherford_spec(),
    ]
}

/// All units of this group.
pub fn units() -> (units: Vec<DerivedConversion>)
    ensures
        group_view(units@) == units_spec(),
{
    let mut units: Vec<DerivedConversion> = Vec::new();
    units.push(becquerel());
    units.push(curie());
    units.push(rutherford());
    assert(group_view(units@) =~= units_spec());
    units
}

} // verus!
