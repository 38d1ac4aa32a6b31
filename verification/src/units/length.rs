//! Units of length; the base unit is the meter.

use super::{Conversion, Decimal, Formula, Space, UnitSpace, UnitSpaceView};
use vstd::prelude::*;

verus! {

/// The unit `meter` as a value.
pub open spec fn meter_spec() -> Conversion {
    Conversion {
        name: "meter",
        description: Some("The base unit of length in the International System of Units."),
        link: Some("https://en.wikipedia.org/wiki/Metre"),
        space: Space::Length,
        formula: Formula::Identity,
        aliases: &["m", "metre"],
        metric: true,
        special: false,
    }
}

/// The base unit of length in the International System of Units.
#[verifier::when_used_as_spec(meter_spec)]
pub fn meter() -> (unit: Conversion)
    ensures
        unit == meter_spec(),
{
    Conversion {
        name: "meter",
        description: Some("The base unit of length in the International System of Units."),
        link: Some("https://en.wikipedia.org/wiki/Metre"),
        space: Space::Length,
        formula: Formula::Identity,
        aliases: &["m", "metre"],
        metric: true,
        special: false,
    }
}

/// The unit `inch` as a value.
pub open spec fn inch_spec() -> Conversion {
    Conversion {
        name: "inch",
        description: Some("Unit of length in the British imperial and the United States customary systems of measurement. It is equal to 1/36 yard or 1/12 of a foot."),
        link: Some("https://en.wikipedia.org/wiki/Inch"),
        space: Space::Length,
        formula: Formula::Linear {
            to_base: Decimal { mantissa: 254, exponent: -4i32 },
            from_base: Decimal { mantissa: 254, exponent: -4i32 },
        },
        aliases: &["in", "\""],
        metric: false,
        special: false,
    }
}

/// Unit of length in the British imperial and the United States customary
/// systems of measurement. It is equal to 1/36 yard or 1/12 of a foot.
#[verifier::when_used_as_spec(inch_spec)]
pub fn inch() -> (unit: Conversion)
    ensures
        unit == inch_spec(),
{
    Conversion {
        name: "inch",
        description: Some("Unit of length in the British imperial and the United States customary systems of measurement. It is equal to 1/36 yard or 1/12 of a foot."),
        link: Some("https://en.wikipedia.org/wiki/Inch"),
        space: Space::Length,
        formula: Formula::Linear {
            to_base: Decimal { mantissa: 254, exponent: -4i32 },
            from_base: Decimal { mantissa: 254, exponent: -4i32 },
        },
        aliases: &["in", "\""],
        metric: false,
        special: false,
    }
}

/// The unit `thou` as a value.
pub open spec fn thou_spec() -> Conversion {
    Conversion {
        name: "thou",
        description: Some("A thousandth of an inch."),
        link: Some("https://en.wikipedia.org/wiki/Thou"),
        space: Space::Length,
        formula: Formula::Linear {
            to_base: Decimal { mantissa: 254, exponent: -7i32 },
            from_base: Decimal { mantissa: 254, exponent: -7i32 },
        },
        aliases: &["mil"],
        metric: false,
        special: false,
    }
}

/// A thousandth of an inch.
#[verifier::when_used_as_spec(thou_spec)]
pub fn thou() -> (unit: Conversion)
    ensures
        unit == thou_spec(),
{
    Conversion {
        name: "thou",
        description: Some("A thousandth of an inch."),
        link: Some("https://en.wikipedia.org/wiki/Thou"),
        space: Space::Length,
        formula: Formula::Linear {
            to_base: Decimal { mantissa: 254, exponent: -7i32 },
            from_base: Decimal { mantissa: 254, exponent: -7i32 },
        },
        aliases: &["mil"],
        metric: false,
        special: false,
    }
}

/// The unit `foot` as a value.
pub open spec fn foot_spec() -> Conversion {
    Conversion {
        name: "foot",
        description: Some("12 inches."),
        link: Some("https://en.wikipedia.org/wiki/Foot_(unit)"),
        space: Space::Length,
        formula: Formula::Linear {
            to_base: Decimal { mantissa: 3048, exponent: -4i32 },
            from_base: Decimal { mantissa: 3048, exponent: -4i32 },
        },
        aliases: &["ft", "feet", "'"],
        metric: false,
        special: false,
    }
}

/// 12 inches.
#[verifier::when_used_as_spec(foot_spec)]
pub fn foot() -> (unit: Conversion)
    ensures
        unit == foot_spec(),
{
    Conversion {
        name: "foot",
        description: Some("12 inches."),
        link: Some("https://en.wikipedia.org/wiki/Foot_(unit)"),
        space: Space::Length,
        formula: Formula::Linear {
            to_base: Decimal { mantissa: 3048, exponent: -4i32 },
            from_base: Decimal { mantissa: 3048, exponent: -4i32 },
        },
        aliases: &["ft", "feet", "'"],
        metric: false,
        special: false,
    }
}

/// The unit `yard` as a value.
pub open spec fn yard_spec() -> Conversion {
    Conversion {
        name: "yard",
        description: Some("Three feet."),
        link: Some("https://en.wikipedia.org/wiki/Yard"),
        space: Space::Length,
        formula: Formula::Linear {
            to_base: Decimal { mantissa: 9144, exponent: -4i32 },
            from_base: Decimal { mantissa: 9144, exponent: -4i32 },
        },
        aliases: &["yd"],
        metric: false,
        special: false,
    }
}

/// Three feet.
#[verifier::when_used_as_spec(yard_spec)]
pub fn yard() -> (unit: Conversion)
    ensures
        unit == yard_spec(),
{
    Conversion {
        name: "yard",
        description: Some("Three feet."),
        link: Some("https://en.wikipedia.org/wiki/Yard"),
        space: Space::Length,
        formula: Formula::Linear {
            to_base: Decimal { mantissa: 9144, exponent: -4i32 },
            from_base: Decimal { mantissa: 9144, exponent: -4i32 },
        },
        aliases: &["yd"],
        metric: false,
        special: false,
    }
}

/// The unit `statutemile` as a value.
pub open spec fn statute_mile_spec() -> Conversion {
    Conversion {
        name: "statutemile",
        description: Some("Based on the older English unit of length equal to 5,280 English feet, or 1,760 yards."),
        link: Some("https://en.wikipedia.org/wiki/Mile"),
        space: Space::Length,
        formula: Formula::Linear {
            to_base: Decimal { mantissa: 1609344, exponent: -3i32 },
            from_base: Decimal { mantissa: 1609344, exponent: -3i32 },
        },
        aliases: &["mi", "statute mile", "mile"],
        metric: false,
        special: false,
    }
}

/// Based on the older English unit of length equal to 5,280 English feet,
/// or 1,760 yards.
#[verifier::when_used_as_spec(statute_mile_spec)]
pub fn statute_mile() -> (unit: Conversion)
    ensures
        unit == statute_mile_spec(),
{
    Conversion {
        name: "statutemile",
        description: Some("Based on the older English unit of length equal to 5,280 English feet, or 1,760 yards."),
        link: Some("https://en.wikipedia.org/wiki/Mile"),
        space: Space::Length,
        formula: Formula::Linear {
            to_base: Decimal { mantissa: 1609344, exponent: -3i32 },
            from_base: Decimal { mantissa: 1609344, exponent: -3i32 },
        },
        aliases: &["mi", "statute mile", "mile"],
        metric: false,
        special: false,
    }
}

/// The unit `league` as a value.
pub open spec fn league_spec() -> Conversion {
    Conversion {
        name: "league",
        description: Some("Was common in Europe and Latin America, but is no longer an official unit in any nation. May have originally represented, roughly, the distance a person could walk in an hour."),
        link: Some("https://en.wikipedia.org/wiki/League_(unit)"),
        space: Space::Length,
        formula: Formula::Linear {
            to_base: Decimal { mantissa: 48280417, exponent: -4i32 },
            from_base: Decimal { mantissa: 48280417, exponent: -4i32 },
        },
        aliases: &[],
        metric: false,
        special: false,
    }
}

/// Was common in Europe and Latin America, but is no longer an official
/// unit in any nation. May have originally represented, roughly, the
/// distance a person could walk in an hour.
#[verifier::when_used_as_spec(league_spec)]
pub fn league() -> (unit: Conversion)
    ensures
        unit == league_spec(),
{
    Conversion {
        name: "league",
        description: Some("Was common in Europe and Latin America, but is no longer an official unit in any nation. May have originally represented, roughly, the distance a person could walk in an hour."),
        link: Some("https://en.wikipedia.org/wiki/League_(unit)"),
        space: Space::Length,
        formula: Formula::Linear {
            to_base: Decimal { mantissa: 48280417, exponent: -4i32 },
            from_base: Decimal { mantissa: 48280417, exponent: -4i32 },
        },
        aliases: &[],
        metric: false,
        special: false,
    }
}

/// The unit `astronmicalunit` as a value.
pub open spec fn astronmical_unit_spec() -> Conversion {
    Conversion {
        name: "astronmicalunit",
        description: Some("Roughly the distance from Earth to the Sun and approximately equal to 150 million kilometres (93 million miles) or 8.3 light-minutes"),
        link: Some("https://en.wikipedia.org/wiki/Astronomical_unit"),
        space: Space::Length,
        formula: Formula::Linear {
            to_base: Decimal { mantissa: 1495978707, exponent: 2 },
            from_base: Decimal { mantissa: 1495978707, exponent: 2 },
        },
        aliases: &["au", "astronomical unit"],
        metric: false,
        special: false,
    }
}

/// Roughly the distance from Earth to the Sun and approximately equal to
/// 150 million kilometres (93 million miles) or 8.3 light-minutes
#[verifier::when_used_as_spec(astronmical_unit_spec)]
pub fn astronmical_unit() -> (unit: Conversion)
    ensures
        unit == astronmical_unit_spec(),
{
    Conversion {
        name: "astronmicalunit",
        description: Some("Roughly the distance from Earth to the Sun and approximately equal to 150 million kilometres (93 million miles) or 8.3 light-minutes"),
        link: Some("https://en.wikipedia.org/wiki/Astronomical_unit"),
        space: Space::Length,
        formula: Formula::Linear {
            to_base: Decimal { mantissa: 1495978707, exponent: 2 },
            from_base: Decimal { mantissa: 1495978707, exponent: 2 },
        },
        aliases: &["au", "astronomical unit"],
        metric: false,
        special: false,
    }
}

/// The unit `siriometer` as a value.
pub open spec fn siriometer_spec() -> Conversion {
    Conversion {
        name: "siriometer",
        description: Some("Obsolete astronomical unit of length, defined to be equal to one million astronomical units."),
        link: Some("https://en.wikipedia.org/wiki/Siriometer"),
        space: Space::Length,
        formula: Formula::Linear {
            to_base: Decimal { mantissa: 1495978707, exponent: 8 },
            from_base: Decimal { mantissa: 1495978707, exponent: 8 },
        },
        aliases: &["sir"],
        metric: false,
        special: false,
    }
}

/// Obsolete astronomical unit of length, defined to be equal to one million
/// astronomical units.
#[verifier::when_used_as_spec(siriometer_spec)]
pub fn siriometer() -> (unit: Conversion)
    ensures
        unit == siriometer_spec(),
{
    Conversion {
        name: "siriometer",
        description: Some("Obsolete astronomical unit of length, defined to be equal to one million astronomical units."),
        link: Some("https://en.wikipedia.org/wiki/Siriometer"),
        space: Space::Length,
        formula: Formula::Linear {
            to_base: Decimal { mantissa: 1495978707, exponent: 8 },
            from_base: Decimal { mantissa: 1495978707, exponent: 8 },
        },
        aliases: &["sir"],
        metric: false,
        special: false,
    }
}

/// The unit `lightyear` as a value.
pub open spec fn light_year_spec() -> Conversion {
    Conversion {
        name: "lightyear",
        description: Some("Used to express astronomical distances and is equivalent to about 9.46 trillion kilometers. Defined as the distance that light travels in a vacuum in one Julian year (365.25 days)."),
        link: Some("https://en.wikipedia.org/wiki/Light-year"),
        space: Space::Length,
        formula: Formula::Linear {
            to_base: Decimal { mantissa: 94607304725808, exponent: 2 },
            from_base: Decimal { mantissa: 94607304725808, exponent: 2 },
        },
        aliases: &["ly", "light-year"],
        metric: false,
        special: false,
    }
}

/// Used to express astronomical distances and is equivalent to about 9.46
/// trillion kilometers. Defined as the distance that light travels in a
/// vacuum in one Julian year (365.25 days).
#[verifier::when_used_as_spec(light_year_spec)]
pub fn light_year() -> (unit: Conversion)
    ensures
        unit == light_year_spec(),
{
    Conversion {
        name: "lightyear",
        description: Some("Used to express astronomical distances and is equivalent to about 9.46 trillion kilometers. Defined as the distance that light travels in a vacuum in one Julian year (365.25 days)."),
        link: Some("https://en.wikipedia.org/wiki/Light-year"),
        space: Space::Length,
        formula: Formula::Linear {
            to_base: Decimal { mantissa: 94607304725808, exponent: 2 },
            from_base: Decimal { mantissa: 94607304725808, exponent: 2 },
        },
        aliases: &["ly", "light-year"],
        metric: false,
        special: false,
    }
}

/// The unit `parsec` as a value.
pub open spec fn parsec_spec() -> Conversion {
    Conversion {
        name: "parsec",
        description: Some("Used to measure the large distances to astronomical objects outside the Solar System, approximately equal to 3.26 light-years or 206,265 astronomical units."),
        link: Some("https://en.wikipedia.org/wiki/Parsec"),
        space: Space::Length,
        formula: Formula::Linear {
            to_base: Decimal { mantissa: 30856776, exponent: 9 },
            from_base: Decimal { mantissa: 30856776, exponent: 9 },
        },
        aliases: &["pc"],
        metric: false,
        special: false,
    }
}

/// Used to measure the large distances to astronomical objects outside the
/// Solar System, approximately equal to 3.26 light-years or 206,265
/// astronomical units.
#[verifier::when_used_as_spec(parsec_spec)]
pub fn parsec() -> (unit: Conversion)
    ensures
        unit == parsec_spec(),
{
    Conversion {
        name: "parsec",
        description: Some("Used to measure the large distances to astronomical objects outside the Solar System, approximately equal to 3.26 light-years or 206,265 astronomical units."),
        link: Some("https://en.wikipedia.org/wiki/Parsec"),
        space: Space::Length,
        formula: Formula::Linear {
            to_base: Decimal { mantissa: 30856776, exponent: 9 },
            from_base: Decimal { mantissa: 30856776, exponent: 9 },
        },
        aliases: &["pc"],
        metric: false,
        special: false,
    }
}

/// The unit `furlong` as a value.
pub open spec fn furlong_spec() -> Conversion {
    Conversion {
        name: "furlong",
        description: Some("Equal to one eighth of a mile, equivalent to any of 660 feet, 220 yards, 40 rods, 10 chains or approximately 201 metres"),
        link: Some("https://en.wikipedia.org/wiki/Furlong"),
        space: Space::Length,
        formula: Formula::Linear {
            to_base: Decimal { mantissa: 201168, exponent: -3i32 },
            from_base: Decimal { mantissa: 201168, exponent: -3i32 },
        },
        aliases: &["fur"],
        metric: false,
        special: false,
    }
}

/// Equal to one eighth of a mile, equivalent to any of 660 feet, 220 yards,
/// 40 rods, 10 chains or approximately 201 metres
#[verifier::when_used_as_spec(furlong_spec)]
pub fn furlong() -> (unit: Conversion)
    ensures
        unit == furlong_spec(),
{
    Conversion {
        name: "furlong",
        description: Some("Equal to one eighth of a mile, equivalent to any of 660 feet, 220 yards, 40 rods, 10 chains or approximately 201 metres"),
        link: Some("https://en.wikipedia.org/wiki/Furlong"),
        space: Space::Length,
        formula: Formula::Linear {
            to_base: Decimal { mantissa: 201168, exponent: -3i32 },
            from_base: Decimal { mantissa: 201168, exponent: -3i32 },
        },
        aliases: &["fur"],
        metric: false,
        special: false,
    }
}

/// The unit `plancklength` as a value.
pub open spec fn planck_length_spec() -> Conversion {
    Conversion {
        name: "plancklength",
        description: Some("It is equal to 1.616255(18)*10^{-35} m. Since the 1950s, it has been conjectured that quantum fluctuations of the spacetime metric might make the familiar notion of distance inapplicable below the Planck length."),
        link: Some("https://en.wikipedia.org/wiki/Planck_units#Planck_length"),
        space: Space::Length,
        formula: Formula::Linear {
            to_base: Decimal { mantissa: 1616255, exponent: -41i32 },
            from_base: Decimal { mantissa: 1616255, exponent: -41i32 },
        },
        aliases: &["planck length"],
        metric: false,
        special: false,
    }
}

/// It is equal to 1.616255(18)*10^{-35} m. Since the 1950s, it has been
/// conjectured that quantum fluctuations of the spacetime metric might make
/// the familiar notion of distance inapplicable below the Planck length.
#[verifier::when_used_as_spec(planck_length_spec)]
pub fn planck_length() -> (unit: Conversion)
    ensures
        unit == planck_length_spec(),
{
    Conversion {
        name: "plancklength",
        description: Some("It is equal to 1.616255(18)*10^{-35} m. Since the 1950s, it has been conjectured that quantum fluctuations of the spacetime metric might make the familiar notion of distance inapplicable below the Planck length."),
        link: Some("https://en.wikipedia.org/wiki/Planck_units#Planck_length"),
        space: Space::Length,
        formula: Formula::Linear {
            to_base: Decimal { mantissa: 1616255, exponent: -41i32 },
            from_base: Decimal { mantissa: 1616255, exponent: -41i32 },
        },
        aliases: &["planck length"],
        metric: false,
        special: false,
    }
}

/// The unit `rod` as a value.
pub open spec fn rod_spec() -> Conversion {
    Conversion {
        name: "rod",
        description: Some("Defined as 16+1/2 feet, equal to exactly 1/320 of a mile, or 5+1/2 yards (a quarter of a surveyor's chain), and is exactly 5.0292 meters."),
        link: Some("https://en.wikipedia.org/wiki/Rod_(unit)"),
        space: Space::Length,
        formula: Formula::Linear {
            to_base: Decimal { mantissa: 50292, exponent: -4i32 },
            from_base: Decimal { mantissa: 50292, exponent: -4i32 },
        },
        aliases: &["perch", "pole", "lug"],
        metric: false,
        special: false,
    }
}

/// Defined as 16+1/2 feet, equal to exactly 1/320 of a mile, or 5+1/2 yards
/// (a quarter of a surveyor's chain), and is exactly 5.0292 meters.
#[verifier::when_used_as_spec(rod_spec)]
pub fn rod() -> (unit: Conversion)
    ensures
        unit == rod_spec(),
{
    Conversion {
        name: "rod",
        description: Some("Defined as 16+1/2 feet, equal to exactly 1/320 of a mile, or 5+1/2 yards (a quarter of a surveyor's chain), and is exactly 5.0292 meters."),
        link: Some("https://en.wikipedia.org/wiki/Rod_(unit)"),
        space: Space::Length,
        formula: Formula::Linear {
            to_base: Decimal { mantissa: 50292, exponent: -4i32 },
            from_base: Decimal { mantissa: 50292, exponent: -4i32 },
        },
        aliases: &["perch", "pole", "lug"],
        metric: false,
        special: false,
    }
}

/// The unit `nauticalmile` as a value.
pub open spec fn nautical_mile_spec() -> Conversion {
    Conversion {
        name: "nauticalmile",
        description: Some("Used in air, marine, and space navigation, and for the definition of territorial waters. Defined as 1,852 metres (about 6,076 ft; 1.151 mi)."),
        link: Some("https://en.wikipedia.org/wiki/Nautical_mile"),
        space: Space::Length,
        formula: Formula::Linear {
            to_base: Decimal { mantissa: 1852, exponent: 0 },
            from_base: Decimal { mantissa: 1852, exponent: 0 },
        },
        aliases: &["nmi", "nautical mile"],
        metric: false,
        special: false,
    }
}

/// Used in air, marine, and space navigation, and for the definition of
/// territorial waters. Defined as 1,852 metres (about 6,076 ft; 1.151 mi).
#[verifier::when_used_as_spec(nautical_mile_spec)]
pub fn nautical_mile() -> (unit: Conversion)
    ensures
        unit == nautical_mile_spec(),
{
    Conversion {
        name: "nauticalmile",
        description: Some("Used in air, marine, and space navigation, and for the definition of territorial waters. Defined as 1,852 metres (about 6,076 ft; 1.151 mi)."),
        link: Some("https://en.wikipedia.org/wiki/Nautical_mile"),
        space: Space::Length,
        formula: Formula::Linear {
            to_base: Decimal { mantissa: 1852, exponent: 0 },
            from_base: Decimal { mantissa: 1852, exponent: 0 },
        },
        aliases: &["nmi", "nautical mile"],
        metric: false,
        special: false,
    }
}

/// The unit `rackunit` as a value.
pub open spec fn rack_unit_spec() -> Conversion {
    Conversion {
        name: "rackunit",
        description: Some("Equal to 1.75 inches (44.45 mm). Used to measure rack-mountable audiovisual, computing and industrial equipment."),
        link: Some("https://en.wikipedia.org/wiki/List_of_unusual_units_of_measurement#Rack_unit"),
        space: Space::Length,
        formula: Formula::Linear {
            to_base: Decimal { mantissa: 4445, exponent: -5i32 },
            from_base: Decimal { mantissa: 4445, exponent: -5i32 },
        },
        aliases: &["U", "rack unit"],
        metric: false,
        special: false,
    }
}

/// Equal to 1.75 inches (44.45 mm). Used to measure rack-mountable
/// audiovisual, computing and industrial equipment.
#[verifier::when_used_as_spec(rack_unit_spec)]
pub fn rack_unit() -> (unit: Conversion)
    ensures
        unit == rack_unit_spec(),
{
    Conversion {
        name: "rackunit",
        description: Some("Equal to 1.75 inches (44.45 mm). Used to measure rack-mountable audiovisual, computing and industrial equipment."),
        link: Some("https://en.wikipedia.org/wiki/List_of_unusual_units_of_measurement#Rack_unit"),
        space: Space::Length,
        formula: Formula::Linear {
            to_base: Decimal { mantissa: 4445, exponent: -5i32 },
            from_base: Decimal { mantissa: 4445, exponent: -5i32 },
        },
        aliases: &["U", "rack unit"],
        metric: false,
        special: false,
    }
}

/// The unit `hand` as a value.
pub open spec fn hand_spec() -> Conversion {
    Conversion {
        name: "hand",
        description: Some("Equal to exactly 4 inches (101.6 mm). It is normally used to measure the height of horses."),
        link: Some("https://en.wikipedia.org/wiki/Hand_(unit)"),
        space: Space::Length,
        formula: Formula::Linear {
            to_base: Decimal { mantissa: 1016, exponent: -4i32 },
            from_base: Decimal { mantissa: 1016, exponent: -4i32 },
        },
        aliases: &["hh"],
        metric: false,
        special: false,
    }
}

/// Equal to exactly 4 inches (101.6 mm). It is normally used to measure the
/// height of horses.
#[verifier::when_used_as_spec(hand_spec)]
pub fn hand() -> (unit: Conversion)
    ensures
        unit == hand_spec(),
{
    Conversion {
        name: "hand",
        description: Some("Equal to exactly 4 inches (101.6 mm). It is normally used to measure the height of horses."),
        link: Some("https://en.wikipedia.org/wiki/Hand_(unit)"),
        space: Space::Length,
        formula: Formula::Linear {
            to_base: Decimal { mantissa: 1016, exponent: -4i32 },
            from_base: Decimal { mantissa: 1016, exponent: -4i32 },
        },
        aliases: &["hh"],
        metric: false,
        special: false,
    }
}

/// The unit `lightsecond` as a value.
pub open spec fn light_second_spec() -> Conversion {
    Conversion {
        name: "lightsecond",
        description: Some("The distance that light travels in free space in one second. Equal to exactly 299792458 m metres."),
        link: Some("https://en.wikipedia.org/wiki/Light-second"),
        space: Space::Length,
        formula: Formula::Linear {
            to_base: Decimal { mantissa: 299792458, exponent: 0 },
            from_base: Decimal { mantissa: 299792458, exponent: 0 },
        },
        aliases: &["ls", "light-second"],
        metric: false,
        special: false,
    }
}

/// The distance that light travels in free space in one second. Equal to
/// exactly 299792458 m metres.
#[verifier::when_used_as_spec(light_second_spec)]
pub fn light_second() -> (unit: Conversion)
    ensures
        unit == light_second_spec(),
{
    Conversion {
        name: "lightsecond",
        description: Some("The distance that light travels in free space in one second. Equal to exactly 299792458 m metres."),
        link: Some("https://en.wikipedia.org/wiki/Light-second"),
        space: Space::Length,
        formula: Formula::Linear {
            to_base: Decimal { mantissa: 299792458, exponent: 0 },
            from_base: Decimal { mantissa: 299792458, exponent: 0 },
        },
        aliases: &["ls", "light-second"],
        metric: false,
        special: false,
    }
}

/// The unit `earthradius` as a value.
pub open spec fn earth_radius_spec() -> Conversion {
    Conversion {
        name: "earthradius",
        description: Some("The globally-average radius of Earth, generally given as 6,371 kilometres."),
        link: Some("https://en.wikipedia.org/wiki/List_of_unusual_units_of_measurement#Earth_radius"),
        space: Space::Length,
        formula: Formula::Linear {
            to_base: Decimal { mantissa: 63781, exponent: 2 },
            from_base: Decimal { mantissa: 63781, exponent: 2 },
        },
        aliases: &["earth radius"],
        metric: false,
        special: false,
    }
}

/// The globally-average radius of Earth, generally given as 6,371
/// kilometres.
#[verifier::when_used_as_spec(earth_radius_spec)]
pub fn earth_radius() -> (unit: Conversion)
    ensures
        unit == earth_radius_spec(),
{
    Conversion {
        name: "earthradius",
        description: Some("The globally-average radius of Earth, generally given as 6,371 kilometres."),
        link: Some("https://en.wikipedia.org/wiki/List_of_unusual_units_of_measurement#Earth_radius"),
        space: Space::Length,
        formula: Formula::Linear {
            to_base: Decimal { mantissa: 63781, exponent: 2 },
            from_base: Decimal { mantissa: 63781, exponent: 2 },
        },
        aliases: &["earth radius"],
        metric: false,
        special: false,
    }
}

/// The unit `lunardistance` as a value.
pub open spec fn lunar_distance_spec() -> Conversion {
    Conversion {
        name: "lunardistance",
        description: Some("The distance from the centre of Earth to the centre of the Moon. Approximately 384,400 km (238,900 mi), or 1.28 light-seconds."),
        link: Some("https://en.wikipedia.org/wiki/List_of_unusual_units_of_measurement#Lunar_distance"),
        space: Space::Length,
        formula: Formula::Linear {
            to_base: Decimal { mantissa: 384399, exponent: 3 },
            from_base: Decimal { mantissa: 384399, exponent: 3 },
        },
        aliases: &["LD", "lunar distance"],
        metric: false,
        special: false,
    }
}

/// The distance from the centre of Earth to the centre of the Moon.
/// Approximately 384,400 km (238,900 mi), or 1.28 light-seconds.
#[verifier::when_used_as_spec(lunar_distance_spec)]
pub fn lunar_distance() -> (unit: Conversion)
    ensures
        unit == lunar_distance_spec(),
{
    Conversion {
        name: "lunardistance",
        description: Some("The distance from the centre of Earth to the centre of the Moon. Approximately 384,400 km (238,900 mi), or 1.28 light-seconds."),
        link: Some("https://en.wikipedia.org/wiki/List_of_unusual_units_of_measurement#Lunar_distance"),
        space: Space::Length,
        formula: Formula::Linear {
            to_base: Decimal { mantissa: 384399, exponent: 3 },
            from_base: Decimal { mantissa: 384399, exponent: 3 },
        },
        aliases: &["LD", "lunar distance"],
        metric: false,
        special: false,
    }
}

/// The unit `barleycorn` as a value.
pub open spec fn barleycorn_spec() -> Conversion {
    Conversion {
        name: "barleycorn",
        description: None,
        link: None,
        space: Space::Length,
        formula: Formula::Linear {
            to_base: Decimal { mantissa: 846667, exponent: -8i32 },
            from_base: Decimal { mantissa: 846667, exponent: -8i32 },
        },
        aliases: &[],
        metric: false,
        special: false,
    }
}

/// The unit `barleycorn`.
#[verifier::when_used_as_spec(barleycorn_spec)]
pub fn barleycorn() -> (unit: Conversion)
    ensures
        unit == barleycorn_spec(),
{
    Conversion {
        name: "barleycorn",
        description: None,
        link: None,
        space: Space::Length,
        formula: Formula::Linear {
            to_base: Decimal { mantissa: 846667, exponent: -8i32 },
            from_base: Decimal { mantissa: 846667, exponent: -8i32 },
        },
        aliases: &[],
        metric: false,
        special: false,
    }
}

/// The unit `metricinch` as a value.
pub open spec fn metric_inch_spec() -> Conversion {
    Conversion {
        name: "metricinch",
        description: None,
        link: None,
        space: Space::Length,
        formula: Formula::Linear {
            to_base: Decimal { mantissa: 25, exponent: -3i32 },
            from_base: Decimal { mantissa: 25, exponent: -3i32 },
        },
        aliases: &["metric inch"],
        metric: false,
        special: false,
    }
}

/// The unit `metricinch`.
#[verifier::when_used_as_spec(metric_inch_spec)]
pub fn metric_inch() -> (unit: Conversion)
    ensures
        unit == metric_inch_spec(),
{
    Conversion {
        name: "metricinch",
        description: None,
        link: None,
        space: Space::Length,
        formula: Formula::Linear {
            to_base: Decimal { mantissa: 25, exponent: -3i32 },
            from_base: Decimal { mantissa: 25, exponent: -3i32 },
        },
        aliases: &["metric inch"],
        metric: false,
        special: false,
    }
}

/// The unit `meticfoot` as a value.
pub open spec fn metic_foot_spec() -> Conversion {
    Conversion {
        name: "meticfoot",
        description: None,
        link: None,
        space: Space::Length,
        formula: Formula::Linear {
            to_base: Decimal { mantissa: 3, exponent: -1i32 },
            from_base: Decimal { mantissa: 3, exponent: -1i32 },
        },
        aliases: &["metric foot"],
        metric: false,
        special: false,
    }
}

/// The unit `meticfoot`.
#[verifier::when_used_as_spec(metic_foot_spec)]
pub fn metic_foot() -> (unit: Conversion)
    ensures
        unit == metic_foot_spec(),
{
    Conversion {
        name: "meticfoot",
        description: None,
        link: None,
        space: Space::Length,
        formula: Formula::Linear {
            to_base: Decimal { mantissa: 3, exponent: -1i32 },
            from_base: Decimal { mantissa: 3, exponent: -1i32 },
        },
        aliases: &["metric foot"],
        metric: false,
        special: false,
    }
}

/// The unit `metricchain` as a value.
pub open spec fn metric_chain_spec() -> Conversion {
    Conversion {
        name: "metricchain",
        description: None,
        link: None,
        space: Space::Length,
        formula: Formula::Linear {
            to_base: Decimal { mantissa: 2, exponent: 1 },
            from_base: Decimal { mantissa: 2, exponent: 1 },
        },
        aliases: &["metric chain"],
        metric: false,
        special: false,
    }
}

/// The unit `metricchain`.
#[verifier::when_used_as_spec(metric_chain_spec)]
pub fn metric_chain() -> (unit: Conversion)
    ensures
        unit == metric_chain_spec(),
{
    Conversion {
        name: "metricchain",
        description: None,
        link: None,
        space: Space::Length,
        formula: Formula::Linear {
            to_base: Decimal { mantissa: 2, exponent: 1 },
            from_base: Decimal { mantissa: 2, exponent: 1 },
        },
        aliases: &["metric chain"],
        metric: false,
        special: false,
    }
}

/// The unit `metriclieue` as a value.
pub open spec fn metric_lieue_spec() -> Conversion {
    Conversion {
        name: "metriclieue",
        description: None,
        link: None,
        space: Space::Length,
        formula: Formula::Linear {
            to_base: Decimal { mantissa: 4, exponent: 3 },
            from_base: Decimal { mantissa: 4, exponent: 3 },
        },
        aliases: &["metric lieue"],
        metric: false,
        special: false,
    }
}

/// The unit `metriclieue`.
#[verifier::when_used_as_spec(metric_lieue_spec)]
pub fn metric_lieue() -> (unit: Conversion)
    ensures
        unit == metric_lieue_spec(),
{
    Conversion {
        name: "metriclieue",
        description: None,
        link: None,
        space: Space::Length,
        formula: Formula::Linear {
            to_base: Decimal { mantissa: 4, exponent: 3 },
            from_base: Decimal { mantissa: 4, exponent: 3 },
        },
        aliases: &["metric lieue"],
        metric: false,
        special: false,
    }
}

/// The unit `scandinavianmile` as a value.
pub open spec fn scandinavian_mile_spec() -> Conversion {
    Conversion {
        name: "scandinavianmile",
        description: None,
        link: None,
        space: Space::Length,
        formula: Formula::Linear {
            to_base: Decimal { mantissa: 1, exponent: 4 },
            from_base: Decimal { mantissa: 1, exponent: 4 },
        },
        aliases: &["scandinavian mile"],
        metric: false,
        special: false,
    }
}

/// The unit `scandinavianmile`.
#[verifier::when_used_as_spec(scandinavian_mile_spec)]
pub fn scandinavian_mile() -> (unit: Conversion)
    ensures
        unit == scandinavian_mile_spec(),
{
    Conversion {
        name: "scandinavianmile",
        description: None,
        link: None,
        space: Space::Length,
        formula: Formula::Linear {
            to_base: Decimal { mantissa: 1, exponent: 4 },
            from_base: Decimal { mantissa: 1, exponent: 4 },
        },
        aliases: &["scandinavian mile"],
        metric: false,
        special: false,
    }
}

/// The unit `fermi` as a value.
pub open spec fn fermi_spec() -> Conversion {
    Conversion {
        name: "fermi",
        description: None,
        link: None,
        space: Space::Length,
        formula: Formula::Linear {
            to_base: Decimal { mantissa: 1, exponent: -15i32 },
            from_base: Decimal { mantissa: 1, exponent: -15i32 },
        },
        aliases: &["fm"],
        metric: false,
        special: false,
    }
}

/// The unit `fermi`.
#[verifier::when_used_as_spec(fermi_spec)]
pub fn fermi() -> (unit: Conversion)
    ensures
        unit == fermi_spec(),
{
    Conversion {
        name: "fermi",
        description: None,
        link: None,
        space: Space::Length,
        formula: Formula::Linear {
            to_base: Decimal { mantissa: 1, exponent: -15i32 },
            from_base: Decimal { mantissa: 1, exponent: -15i32 },
        },
        aliases: &["fm"],
        metric: false,
        special: false,
    }
}

/// The unit `pica` as a value.
pub open spec fn pica_spec() -> Conversion {
    Conversion {
        name: "pica",
        description: None,
        link: None,
        space: Space::Length,
        formula: Formula::Linear {
            to_base: Decimal { mantissa: 42333, exponent: -7i32 },
            from_base: Decimal { mantissa: 42333, exponent: -7i32 },
        },
        aliases: &[],
        metric: false,
        special: false,
    }
}

/// The unit `pica`.
#[verifier::when_used_as_spec(pica_spec)]
pub fn pica() -> (unit: Conversion)
    ensures
        unit == pica_spec(),
{
    Conversion {
        name: "pica",
        description: None,
        link: None,
        space: Space::Length,
        formula: Formula::Linear {
            to_base: Decimal { mantissa: 42333, exponent: -7i32 },
            from_base: Decimal { mantissa: 42333, exponent: -7i32 },
        },
        aliases: &[],
        metric: false,
        special: false,
    }
}

/// The space of length as a value: its units, the base unit first.
pub open spec fn units_spec() -> UnitSpaceView {
    UnitSpaceView {
        name: "length",
        space: Space::Length,
        units: seq![
            meter(),
            inch(),
            thou(),
            foot(),
            yard(),
            statute_mile(),
            league(),
            astronmical_unit(),
            siriometer(),
            light_year(),
            parsec(),
            furlong(),
            planck_length(),
            rod(),
            nautical_mile(),
            rack_unit(),
            hand(),
            light_second(),
            earth_radius(),
            lunar_distance(),
            barleycorn(),
            metric_inch(),
            metic_foot(),
            metric_chain(),
            metric_lieue(),
            scandinavian_mile(),
            fermi(),
            pica(),
        ],
    }
}

/// All units of length, the base unit first.
pub fn units() -> (space: UnitSpace)
    ensures
        space@ == units_spec(),
{
    let mut units: Vec<Conversion> = Vec::new();
    units.push(meter());
    units.push(inch());
    units.push(thou());
    units.push(foot());
    units.push(yard());
    units.push(statute_mile());
    units.push(league());
    units.push(astronmical_unit());
    units.push(siriometer());
    units.push(light_year());
    units.push(parsec());
    units.push(furlong());
    units.push(planck_length());
    units.push(rod());
    units.push(nautical_mile());
    units.push(rack_unit());
    units.push(hand());
    units.push(light_second());
    units.push(earth_radius());
    units.push(lunar_distance());
    units.push(barleycorn());
    units.push(metric_inch());
    units.push(metic_foot());
    units.push(metric_chain());
    units.push(metric_lieue());
    units.push(scandinavian_mile());
    units.push(fermi());
    units.push(pica());
    assert(units@ =~= units_spec().units);
    UnitSpace { name: "length", space: Space::Length, units }
}

} // verus!
