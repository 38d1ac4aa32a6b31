//! Units of angle; the base unit is the radian.

use super::{Conversion, Formula, Space, UnitSpace, UnitSpaceView};
use vstd::prelude::*;

verus! {

/// The unit `radian` as a value.
pub open spec fn radian_spec() -> Conversion {
    Conversion {
        name: "radian",
        description: Some("The unit of angle in the International System of Units. Defined such that one radian is the angle subtended at the centre of a circle by an arc that is equal in length to the radius"),
        link: Some("https://en.wikipedia.org/wiki/Radian"),
        space: Space::Angle,
        formula: Formula::Identity,
        aliases: &["rad"],
        metric: true,
        special: false,
    }
}

/// The unit of angle in the International System of Units. Defined such
/// that one radian is the angle subtended at the centre of a circle by an
/// arc that is equal in length to the radius
#[verifier::when_used_as_spec(radian_spec)]
pub fn radian() -> (unit: Conversion)
    ensures
        unit == radian_spec(),
{
    Conversion {
        name: "radian",
        description: Some("The unit of angle in the International System of Units. Defined such that one radian is the angle subtended at the centre of a circle by an arc that is equal in length to the radius"),
        link: Some("https://en.wikipedia.org/wiki/Radian"),
        space: Space::Angle,
        formula: Formula::Identity,
        aliases: &["rad"],
        metric: true,
        special: false,
    }
}

/// The unit `steradian` as a value.
pub open spec fn steradian_spec() -> Conversion {
    Conversion {
        name: "steradian",
        description: Some("Also known as the square radian. The unit of solid angle in the International System of Units. It is used in three dimensional geometry, and is analogous to the radian"),
        link: Some("https://en.wikipedia.org/wiki/Steradian"),
        space: Space::Angle,
        formula: Formula::Identity,
        aliases: &["sr"],
        metric: true,
        special: false,
    }
}

/// Also known as the square radian. The unit of solid angle in the
/// International System of Units. It is used in three dimensional geometry,
/// and is analogous to the radian
#[verifier::when_used_as_spec(steradian_spec)]
pub fn steradian() -> (unit: Conversion)
    ensures
        unit == steradian_spec(),
{
    Conversion {
        name: "steradian",
        description: Some("Also known as the square radian. The unit of solid angle in the International System of Units. It is used in three dimensional geometry, and is analogous to the radian"),
        link: Some("https://en.wikipedia.org/wiki/Steradian"),
        space: Space::Angle,
        formula: Formula::Identity,
        aliases: &["sr"],
        metric: true,
        special: false,
    }
}

/// The unit `turn` as a value.
pub open spec fn turn_spec() -> Conversion {
    Conversion {
        name: "turn",
        description: Some("Unit of plane angle measurement equal to 2pi radians."),
        link: Some("https://en.wikipedia.org/wiki/Turn_(angle)"),
        space: Space::Angle,
        formula: Formula::Turn,
        aliases: &["tr", "pla"],
        metric: true,
        special: false,
    }
}

/// Unit of plane angle measurement equal to 2pi radians.
#[verifier::when_used_as_spec(turn_spec)]
pub fn turn() -> (unit: Conversion)
    ensures
        unit == turn_spec(),
{
    Conversion {
        name: "turn",
        description: Some("Unit of plane angle measurement equal to 2pi radians."),
        link: Some("https://en.wikipedia.org/wiki/Turn_(angle)"),
        space: Space::Angle,
        formula: Formula::Turn,
        aliases: &["tr", "pla"],
        metric: true,
        special: false,
    }
}

/// The unit `degree` as a value.
pub open spec fn degree_spec() -> Conversion {
    Conversion {
        name: "degree",
        description: Some("Measurement of a plane angle in which one full rotation is 360 degrees."),
        link: Some("https://en.wikipedia.org/wiki/Degree_(angle)"),
        space: Space::Angle,
        formula: Formula::Degree,
        aliases: &["deg"],
        metric: false,
        special: false,
    }
}

/// Measurement of a plane angle in which one full rotation is 360 degrees.
#[verifier::when_used_as_spec(degree_spec)]
pub fn degree() -> (unit: Conversion)
    ensures
        unit == degree_spec(),
{
    Conversion {
        name: "degree",
        description: Some("Measurement of a plane angle in which one full rotation is 360 degrees."),
        link: Some("https://en.wikipedia.org/wiki/Degree_(angle)"),
        space: Space::Angle,
        formula: Formula::Degree,
        aliases: &["deg"],
        metric: false,
        special: false,
    }
}

/// The unit `gradian` as a value.
pub open spec fn gradian_spec() -> Conversion {
    Conversion {
        name: "gradian",
        description: Some("Unit of measurement of an angle, defined as one-hundredth of the right angle."),
        link: Some("https://en.wikipedia.org/wiki/Gradian"),
        space: Space::Angle,
        formula: Formula::Gradian,
        aliases: &["grad", "gon"],
        metric: true,
        special: false,
    }
}

/// Unit of measurement of an angle, defined as one-hundredth of the right
/// angle.
#[verifier::when_used_as_spec(gradian_spec)]
pub fn gradian() -> (unit: Conversion)
    ensures
        unit == gradian_spec(),
{
    Conversion {
        name: "gradian",
        description: Some("Unit of measurement of an angle, defined as one-hundredth of the right angle."),
        link: Some("https://en.wikipedia.org/wiki/Gradian"),
        space: Space::Angle,
        formula: Formula::Gradian,
        aliases: &["grad", "gon"],
        metric: true,
        special: false,
    }
}

/// The space of angle as a value: its units, the base unit first.
pub open spec fn units_spec() -> UnitSpaceView {
    UnitSpaceView {
        name: "angle",
        space: Space::Angle,
        units: seq![
            radian(),
            steradian(),
            turn(),
            degree(),
            gradian(),
        ],
    }
}

/// All units of angle, the base unit first.
pub fn units() -> (space: UnitSpace)
    ensures
        space@ == units_spec(),
{
    let mut units: Vec<Conversion> = Vec::new();
    units.push(radian());
    units.push(steradian());
    units.push(turn());
    units.push(degree());
    units.push(gradian());
    assert(units@ =~= units_spec().units);
    UnitSpace { name: "angle", space: Space::Angle, units }
}

} // verus!
