//! Units of electric current; the base unit is the ampere.

use super::{Conversion, Formula, Space, UnitSpace, UnitSpaceView};
use vstd::prelude::*;

verus! {

/// The unit `ampere` as a value.
pub open spec fn ampere_spec() -> Conversion {
    Conversion {
        name: "ampere",
        description: Some("The unit of electric current in the International System of Units. Equal to 1 coulomb."),
        link: Some("https://en.wikipedia.org/wiki/Ampere"),
        space: Space::ElectricCurrent,
        formula: Formula::Identity,
        aliases: &["A", "amp"],
        metric: true,
        special: false,
    }
}

/// The unit of electric current in the International System of Units. Equal
/// to 1 coulomb.
#[verifier::when_used_as_spec(ampere_spec)]
pub fn ampere() -> (unit: Conversion)
    ensures
        unit == ampere_spec(),
{
    Conversion {
        name: "ampere",
        description: Some("The unit of electric current in the International System of Units. Equal to 1 coulomb."),
        link: Some("https://en.wikipedia.org/wiki/Ampere"),
        space: Space::ElectricCurrent,
        formula: Formula::Identity,
        aliases: &["A", "amp"],
        metric: true,
        special: false,
    }
}

/// The space of electric current as a value: its units, the base unit first.
pub open spec fn units_spec() -> UnitSpaceView {
    UnitSpaceView {
        name: "electriccurrent",
        space: Space::ElectricCurrent,
        units: seq![
            ampere(),
        ],
    }
}

/// All units of electric current, the base unit first.
pub fn units() -> (space: UnitSpace)
    ensures
        space@ == units_spec(),
{
    let mut units: Vec<Conversion> = Vec::new();
    units.push(ampere());
    assert(units@ =~= units_spec().units);
    UnitSpace { name: "electriccurrent", space: Space::ElectricCurrent, units }
}

} // verus!
