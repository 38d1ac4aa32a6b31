//! Units of time; the base unit is the second.

use super::{Conversion, Decimal, Formula, Space, UnitSpace, UnitSpaceView};
use vstd::prelude::*;

verus! {

/// The unit `second` as a value.
pub open spec fn second_spec() -> Conversion {
    Conversion {
        name: "second",
        description: Some("9192631770 oscillations of the unperturbed ground-state hyperfine transition frequency of the caesium 133 atom."),
        link: Some("https://en.wikipedia.org/wiki/Second"),
        space: Space::Time,
        formula: Formula::Identity,
        aliases: &["s", "sec"],
        metric: true,
        special: false,
    }
}

/// 9192631770 oscillations of the unperturbed ground-state hyperfine
/// transition frequency of the caesium 133 atom.
#[verifier::when_used_as_spec(second_spec)]
pub fn second() -> (unit: Conversion)
    ensures
        unit == second_spec(),
{
    Conversion {
        name: "second",
        description: Some("9192631770 oscillations of the unperturbed ground-state hyperfine transition frequency of the caesium 133 atom."),
        link: Some("https://en.wikipedia.org/wiki/Second"),
        space: Space::Time,
        formula: Formula::Identity,
        aliases: &["s", "sec"],
        metric: true,
        special: false,
    }
}

/// The unit `minute` as a value.
pub open spec fn minute_spec() -> Conversion {
    Conversion {
        name: "minute",
        description: Some("60 seconds."),
        link: Some("https://en.wikipedia.org/wiki/Minute"),
        space: Space::Time,
        formula: Formula::Linear {
            to_base: Decimal { mantissa: 6, exponent: 1 },
            from_base: Decimal { mantissa: 6, exponent: 1 },
        },
        aliases: &["min"],
        metric: false,
        special: false,
    }
}

/// 60 seconds.
#[verifier::when_used_as_spec(minute_spec)]
pub fn minute() -> (unit: Conversion)
    ensures
        unit == minute_spec(),
{
    Conversion {
        name: "minute",
        description: Some("60 seconds."),
        link: Some("https://en.wikipedia.org/wiki/Minute"),
        space: Space::Time,
        formula: Formula::Linear {
            to_base: Decimal { mantissa: 6, exponent: 1 },
            from_base: Decimal { mantissa: 6, exponent: 1 },
        },
        aliases: &["min"],
        metric: false,
        special: false,
    }
}

/// The unit `hour` as a value.
pub open spec fn hour_spec() -> Conversion {
    Conversion {
        name: "hour",
        description: Some("60 minutes."),
        link: Some("https://en.wikipedia.org/wiki/Hour"),
        space: Space::Time,
        formula: Formula::Linear {
            to_base: Decimal { mantissa: 36, exponent: 2 },
            from_base: Decimal { mantissa: 36, exponent: 2 },
        },
        aliases: &["h", "hr"],
        metric: false,
        special: false,
    }
}

/// 60 minutes.
#[verifier::when_used_as_spec(hour_spec)]
pub fn hour() -> (unit: Conversion)
    ensures
        unit == hour_spec(),
{
    Conversion {
        name: "hour",
        description: Some("60 minutes."),
        link: Some("https://en.wikipedia.org/wiki/Hour"),
        space: Space::Time,
        formula: Formula::Linear {
            to_base: Decimal { mantissa: 36, exponent: 2 },
            from_base: Decimal { mantissa: 36, exponent: 2 },
        },
        aliases: &["h", "hr"],
        metric: false,
        special: false,
    }
}

/// The unit `day` as a value.
pub open spec fn day_spec() -> Conversion {
    Conversion {
        name: "day",
        description: Some("On average 24 hours. (Exactly 24 hours in this converter)"),
        link: Some("https://en.wikipedia.org/wiki/Day"),
        space: Space::Time,
        formula: Formula::Linear {
            to_base: Decimal { mantissa: 864, exponent: 2 },
            from_base: Decimal { mantissa: 864, exponent: 2 },
        },
        aliases: &["D"],
        metric: false,
        special: false,
    }
}

/// On average 24 hours. (Exactly 24 hours in this converter)
#[verifier::when_used_as_spec(day_spec)]
pub fn day() -> (unit: Conversion)
    ensures
        unit == day_spec(),
{
    Conversion {
        name: "day",
        description: Some("On average 24 hours. (Exactly 24 hours in this converter)"),
        link: Some("https://en.wikipedia.org/wiki/Day"),
        space: Space::Time,
        formula: Formula::Linear {
            to_base: Decimal { mantissa: 864, exponent: 2 },
            from_base: Decimal { mantissa: 864, exponent: 2 },
        },
        aliases: &["D"],
        metric: false,
        special: false,
    }
}

/// The unit `week` as a value.
pub open spec fn week_spec() -> Conversion {
    Conversion {
        name: "week",
        description: Some("7 days."),
        link: Some("https://en.wikipedia.org/wiki/Week"),
        space: Space::Time,
        formula: Formula::Linear {
            to_base: Decimal { mantissa: 6048, exponent: 2 },
            from_base: Decimal { mantissa: 6048, exponent: 2 },
        },
        aliases: &["wk"],
        metric: false,
        special: false,
    }
}

/// 7 days.
#[verifier::when_used_as_spec(week_spec)]
pub fn week() -> (unit: Conversion)
    ensures
        unit == week_spec(),
{
    Conversion {
        name: "week",
        description: Some("7 days."),
        link: Some("https://en.wikipedia.org/wiki/Week"),
        space: Space::Time,
        formula: Formula::Linear {
            to_base: Decimal { mantissa: 6048, exponent: 2 },
            from_base: Decimal { mantissa: 6048, exponent: 2 },
        },
        aliases: &["wk"],
        metric: false,
        special: false,
    }
}

/// The unit `sol` as a value.
pub open spec fn sol_spec() -> Conversion {
    Conversion {
        name: "sol",
        description: Some("Apparent interval between two successive returns of the Sun to the same meridian. Equal to 88740.244 seconds."),
        link: Some("https://en.wikipedia.org/wiki/Solar_time"),
        space: Space::Time,
        formula: Formula::Linear {
            to_base: Decimal { mantissa: 88740244, exponent: -3i32 },
            from_base: Decimal { mantissa: 88740244, exponent: -3i32 },
        },
        aliases: &[],
        metric: false,
        special: false,
    }
}

/// Apparent interval between two successive returns of the Sun to the same
/// meridian. Equal to 88740.244 seconds.
#[verifier::when_used_as_spec(sol_spec)]
pub fn sol() -> (unit: Conversion)
    ensures
        unit == sol_spec(),
{
    Conversion {
        name: "sol",
        description: Some("Apparent interval between two successive returns of the Sun to the same meridian. Equal to 88740.244 seconds."),
        link: Some("https://en.wikipedia.org/wiki/Solar_time"),
        space: Space::Time,
        formula: Formula::Linear {
            to_base: Decimal { mantissa: 88740244, exponent: -3i32 },
            from_base: Decimal { mantissa: 88740244, exponent: -3i32 },
        },
        aliases: &[],
        metric: false,
        special: false,
    }
}

/// The unit `julianyear` as a value.
pub open spec fn julian_year_spec() -> Conversion {
    Conversion {
        name: "julianyear",
        description: Some("The average length of the year in the Julian calendar, 365.25 days."),
        link: Some("https://en.wikipedia.org/wiki/Julian_year_(astronomy)"),
        space: Space::Time,
        formula: Formula::Linear {
            to_base: Decimal { mantissa: 315576, exponent: 2 },
            from_base: Decimal { mantissa: 315576, exponent: 2 },
        },
        aliases: &["julian year"],
        metric: false,
        special: false,
    }
}

/// The average length of the year in the Julian calendar, 365.25 days.
#[verifier::when_used_as_spec(julian_year_spec)]
pub fn julian_year() -> (unit: Conversion)
    ensures
        unit == julian_year_spec(),
{
    Conversion {
        name: "julianyear",
        description: Some("The average length of the year in the Julian calendar, 365.25 days."),
        link: Some("https://en.wikipedia.org/wiki/Julian_year_(astronomy)"),
        space: Space::Time,
        formula: Formula::Linear {
            to_base: Decimal { mantissa: 315576, exponent: 2 },
            from_base: Decimal { mantissa: 315576, exponent: 2 },
        },
        aliases: &["julian year"],
        metric: false,
        special: false,
    }
}

/// The unit `fortnight` as a value.
pub open spec fn fortnight_spec() -> Conversion {
    Conversion {
        name: "fortnight",
        description: Some("Equal to 14 days (two weeks)."),
        link: Some("https://en.wikipedia.org/wiki/Fortnight"),
        space: Space::Time,
        formula: Formula::Linear {
            to_base: Decimal { mantissa: 12096, exponent: 2 },
            from_base: Decimal { mantissa: 12096, exponent: 2 },
        },
        aliases: &["ftn"],
        metric: false,
        special: false,
    }
}

/// Equal to 14 days (two weeks).
#[verifier::when_used_as_spec(fortnight_spec)]
pub fn fortnight() -> (unit: Conversion)
    ensures
        unit == fortnight_spec(),
{
    Conversion {
        name: "fortnight",
        description: Some("Equal to 14 days (two weeks)."),
        link: Some("https://en.wikipedia.org/wiki/Fortnight"),
        space: Space::Time,
        formula: Formula::Linear {
            to_base: Decimal { mantissa: 12096, exponent: 2 },
            from_base: Decimal { mantissa: 12096, exponent: 2 },
        },
        aliases: &["ftn"],
        metric: false,
        special: false,
    }
}

/// The unit `plancktime` as a value.
pub open spec fn planck_time_spec() -> Conversion {
    Conversion {
        name: "plancktime",
        description: Some("The time required for light to travel a distance of 1 Planck length in vacuum."),
        link: Some("https://en.wikipedia.org/wiki/Planck_units#Planck_time"),
        space: Space::Time,
        formula: Formula::Linear {
            to_base: Decimal { mantissa: 5391247, exponent: -50i32 },
            from_base: Decimal { mantissa: 5391247, exponent: -50i32 },
        },
        aliases: &["planck time"],
        metric: false,
        special: false,
    }
}

/// The time required for light to travel a distance of 1 Planck length in
/// vacuum.
#[verifier::when_used_as_spec(planck_time_spec)]
pub fn planck_time() -> (unit: Conversion)
    ensures
        unit == planck_time_spec(),
{
    Conversion {
        name: "plancktime",
        description: Some("The time required for light to travel a distance of 1 Planck length in vacuum."),
        link: Some("https://en.wikipedia.org/wiki/Planck_units#Planck_time"),
        space: Space::Time,
        formula: Formula::Linear {
            to_base: Decimal { mantissa: 5391247, exponent: -50i32 },
            from_base: Decimal { mantissa: 5391247, exponent: -50i32 },
        },
        aliases: &["planck time"],
        metric: false,
        special: false,
    }
}

/// The unit `siderealday` as a value.
pub open spec fn sidereal_day_spec() -> Conversion {
    Conversion {
        name: "siderealday",
        description: Some("The time for a single rotation of the earth on its axis in reference to any star or to the vernal equinox at the meridian. Equal to 23 hours, 56 minutes, 4.09 seconds."),
        link: Some("https://en.wikipedia.org/wiki/Sidereal_time#Sidereal_day"),
        space: Space::Time,
        formula: Formula::Linear {
            to_base: Decimal { mantissa: 861640891217, exponent: -7i32 },
            from_base: Decimal { mantissa: 861640891217, exponent: -7i32 },
        },
        aliases: &["sidereal day"],
        metric: false,
        special: false,
    }
}

/// The time for a single rotation of the earth on its axis in reference to
/// any star or to the vernal equinox at the meridian. Equal to 23 hours, 56
/// minutes, 4.09 seconds.
#[verifier::when_used_as_spec(sidereal_day_spec)]
pub fn sidereal_day() -> (unit: Conversion)
    ensures
        unit == sidereal_day_spec(),
{
    Conversion {
        name: "siderealday",
        description: Some("The time for a single rotation of the earth on its axis in reference to any star or to the vernal equinox at the meridian. Equal to 23 hours, 56 minutes, 4.09 seconds."),
        link: Some("https://en.wikipedia.org/wiki/Sidereal_time#Sidereal_day"),
        space: Space::Time,
        formula: Formula::Linear {
            to_base: Decimal { mantissa: 861640891217, exponent: -7i32 },
            from_base: Decimal { mantissa: 861640891217, exponent: -7i32 },
        },
        aliases: &["sidereal day"],
        metric: false,
        special: false,
    }
}

/// The unit `shake` as a value.
pub open spec fn shake_spec() -> Conversion {
    Conversion {
        name: "shake",
        description: Some("Informal metric unit of time equal to 10 nanoseconds. Originally used in nuclear physics mostly with neutron reactions"),
        link: Some("https://en.wikipedia.org/wiki/Shake_(unit)"),
        space: Space::Time,
        formula: Formula::Linear {
            to_base: Decimal { mantissa: 1, exponent: -8i32 },
            from_base: Decimal { mantissa: 1, exponent: -8i32 },
        },
        aliases: &[],
        metric: false,
        special: false,
    }
}

/// Informal metric unit of time equal to 10 nanoseconds. Originally used in
/// nuclear physics mostly with neutron reactions
#[verifier::when_used_as_spec(shake_spec)]
pub fn shake() -> (unit: Conversion)
    ensures
        unit == shake_spec(),
{
    Conversion {
        name: "shake",
        description: Some("Informal metric unit of time equal to 10 nanoseconds. Originally used in nuclear physics mostly with neutron reactions"),
        link: Some("https://en.wikipedia.org/wiki/Shake_(unit)"),
        space: Space::Time,
        formula: Formula::Linear {
            to_base: Decimal { mantissa: 1, exponent: -8i32 },
            from_base: Decimal { mantissa: 1, exponent: -8i32 },
        },
        aliases: &[],
        metric: false,
        special: false,
    }
}

/// The unit `galacticyear` as a value.
pub open spec fn galactic_year_spec() -> Conversion {
    Conversion {
        name: "galacticyear",
        description: Some("The time it takes the Sun to orbit the center of the Milky Way galaxy. Equal to 19440000 million years."),
        link: Some("https://en.wikipedia.org/wiki/Galactic_year"),
        space: Space::Time,
        formula: Formula::Linear {
            to_base: Decimal { mantissa: 1944, exponent: 10 },
            from_base: Decimal { mantissa: 1944, exponent: 10 },
        },
        aliases: &["galactic year"],
        metric: false,
        special: false,
    }
}

/// The time it takes the Sun to orbit the center of the Milky Way galaxy.
/// Equal to 19440000 million years.
#[verifier::when_used_as_spec(galactic_year_spec)]
pub fn galactic_year() -> (unit: Conversion)
    ensures
        unit == galactic_year_spec(),
{
    Conversion {
        name: "galacticyear",
        description: Some("The time it takes the Sun to orbit the center of the Milky Way galaxy. Equal to 19440000 million years."),
        link: Some("https://en.wikipedia.org/wiki/Galactic_year"),
        space: Space::Time,
        formula: Formula::Linear {
            to_base: Decimal { mantissa: 1944, exponent: 10 },
            from_base: Decimal { mantissa: 1944, exponent: 10 },
        },
        aliases: &["galactic year"],
        metric: false,
        special: false,
    }
}

/// The space of time as a value: its units, the base unit first.
pub open spec fn units_spec() -> UnitSpaceView {
    UnitSpaceView {
        name: "time",
        space: Space::Time,
        units: seq![
            second(),
            minute(),
            hour(),
            day(),
            week(),
            sol(),
            julian_year(),
            fortnight(),
            planck_time(),
            sidereal_day(),
            shake(),
            galactic_year(),
        ],
    }
}

/// All units of time, the base unit first.
pub fn units() -> (space: UnitSpace)
    ensures
        space@ == units_spec(),
{
    let mut units: Vec<Conversion> = Vec::new();
    units.push(second());
    units.push(minute());
    units.push(hour());
    units.push(day());
    units.push(week());
    units.push(sol());
    units.push(julian_year());
    units.push(fortnight());
    units.push(planck_time());
    units.push(sidereal_day());
    units.push(shake());
    units.push(galactic_year());
    assert(units@ =~= units_spec().units);
    UnitSpace { name: "time", space: Space::Time, units }
}

} // verus!
