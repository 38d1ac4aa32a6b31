//! Names that stand for a product of several units, such as `mph`.

use crate::text::same_text;
use crate::units::derived::{energy, DerivedConversion, DerivedView};
use crate::units::{length, time, Conversion};
use vstd::prelude::*;

verus! {

/// What one factor of a shorthand is: a unit or a derived unit. A
/// shorthand holds no shorthand.
#[derive(Debug, PartialEq)]
pub enum Constituent {
    Conversion(Conversion),
    DerivedConversion(DerivedConversion),
}

/// A name for a product of units.
#[derive(Debug, PartialEq)]
pub struct Shorthand {
    pub name: &'static str,
    pub unit: Vec<HandUnit>,
    pub metric: bool,
}

/// One factor of a shorthand.
#[derive(Debug, PartialEq)]
pub struct HandUnit {
    pub conversion: Constituent,
    pub power: i64,
    pub sci_exponent: i32,
}

/// The mathematical value of a [`Constituent`].
pub enum ConstituentView {
    Conversion(Conversion),
    DerivedConversion(DerivedView),
}

/// The mathematical value of a [`HandUnit`].
pub struct HandUnitView {
    pub conversion: ConstituentView,
    pub power: i64,
    pub sci_exponent: i32,
}

/// The mathematical value of a [`Shorthand`].
pub struct ShorthandView {
    pub name: &'static str,
    pub unit: Seq<HandUnitView>,
    pub metric: bool,
}

impl View for Constituent {
    type V = ConstituentView;

    open spec fn view(&self) -> ConstituentView {
        match self {
            Constituent::Conversion(conversion) => ConstituentView::Conversion(*conversion),
            Constituent::DerivedConversion(derived) => ConstituentView::DerivedConversion(derived@),
        }
    }
}

impl View for HandUnit {
    type V = HandUnitView;

    open spec fn view(&self) -> HandUnitView {
        HandUnitView {
            conversion: self.conversion@,
            power: self.power,
            sci_exponent: self.sci_exponent,
        }
    }
}

impl View for Shorthand {
    type V = ShorthandView;

    open spec fn view(&self) -> ShorthandView {
        ShorthandView {
            name: self.name,
            unit: self.unit@.map_values(|unit: HandUnit| unit@),
            metric: self.metric,
        }
    }
}

/// The values of a list of shorthands.
pub open spec fn shorthands_view(shorthands: Seq<Shorthand>) -> Seq<ShorthandView> {
    shorthands.map_values(|shorthand: Shorthand| shorthand@)
}

/// The shorthands as values: `Wh`, a watt times an hour, which takes
/// metric prefixes, and `mph`, a mile by the hour.
pub open spec fn shorthands_spec() -> Seq<ShorthandView> {
    seq![
        ShorthandView {
            name: "Wh",
            unit: seq![
                HandUnitView {
                    conversion: ConstituentView::DerivedConversion(energy::watt_spec()),
                    power: 1,
                    sci_exponent: 0,
                },
                HandUnitView {
                    conversion: ConstituentView::Conversion(time::hour()),
                    power: 1,
                    sci_exponent: 0,
                },
            ],
            metric: true,
        },
        ShorthandView {
            name: "mph",
            unit: seq![
                HandUnitView {
                    conversion: ConstituentView::Conversion(length::statute_mile()),
                    power: 1,
                    sci_exponent: 0,
                },
                HandUnitView {
                    conversion: ConstituentView::Conversion(time::hour()),
                    power: -1i64,
                    sci_exponent: 0,
                },
            ],
            metric: false,
        },
    ]
}

/// The shorthands.
pub fn shorthands() -> (shorthands: Vec<Shorthand>)
    ensures
        shorthands_view(shorthands@) == shorthands_spec(),
{
    let mut watt_hour: Vec<HandUnit> = Vec::new();
    watt_hour.push(HandUnit::new_derived(energy::watt(), 1, 0));
    watt_hour.push(HandUnit::new(time::hour(), 1, 0));
    let mut miles_per_hour: Vec<HandUnit> = Vec::new();
    miles_per_hour.push(HandUnit::new(length::statute_mile(), 1, 0));
    miles_per_hour.push(HandUnit::new(time::hour(), -1, 0));
    let mut shorthands: Vec<Shorthand> = Vec::new();
    shorthands.push(Shorthand::new_metric("Wh", watt_hour));
    shorthands.push(Shorthand::new("mph", miles_per_hour));
    proof {
        assert(shorthands@[0]@.unit =~= shorthands_spec()[0].unit);
        assert(shorthands@[1]@.unit =~= shorthands_spec()[1].unit);
        assert(shorthands_view(shorthands@) =~= shorthands_spec());
    }
    shorthands
}

/// The first of `shorthands`, from position `from` on, whose name is
/// exactly `name`.
pub open spec fn shorthand_named(shorthands: Seq<ShorthandView>, name: Seq<char>, from: int) -> Option<
    ShorthandView,
>
    decreases shorthands.len() - from,
{
    if from < 0 || from >= shorthands.len() {
        None
    } else if shorthands[from].name@ == name {
        Some(shorthands[from])
    } else {
        shorthand_named(shorthands, name, from + 1)
    }
}

/// Looks a shorthand up by its exact name.
pub fn get<'a>(shorthands: &'a Vec<Shorthand>, s: &str) -> (found: Option<&'a Shorthand>)
    ensures
        match found {
            Some(shorthand) => shorthand_named(shorthands_view(shorthands@), s@, 0) == Some(
                shorthand@,
            ),
            None => shorthand_named(shorthands_view(shorthands@), s@, 0) is None,
        },
{
    let ghost views = shorthands_view(shorthands@);
    let mut i: usize = 0;
    while i < shorthands.len()
        invariant
            i <= shorthands@.len(),
            views == shorthands_view(shorthands@),
            shorthand_named(views, s@, 0) == shorthand_named(views, s@, i as int),
        decreases shorthands@.len() - i,
    {
        if same_text(shorthands[i].name, s) {
            return Some(&shorthands[i]);
        }
        i += 1;
    }
    None
}

impl Shorthand {
    /// A shorthand that takes no metric prefix.
    pub fn new(name: &'static str, unit: Vec<HandUnit>) -> (shorthand: Self)
        ensures
            shorthand.name == name,
            shorthand.unit == unit,
            !shorthand.metric,
    {
        Self { name, unit, metric: false }
    }

    /// A shorthand that takes metric prefixes.
    pub fn new_metric(name: &'static str, unit: Vec<HandUnit>) -> (shorthand: Self)
        ensures
            shorthand.name == name,
            shorthand.unit == unit,
            shorthand.metric,
    {
        Self { name, unit, metric: true }
    }
}

impl HandUnit {
    /// A factor that is a unit.
    pub fn new(conversion: Conversion, power: i64, sci_exponent: i32) -> (unit: Self)
        ensures
            unit.conversion == Constituent::Conversion(conversion),
            unit.power == power,
            unit.sci_exponent == sci_exponent,
    {
        Self { conversion: Constituent::Conversion(conversion), power, sci_exponent }
    }

    /// A factor that is a derived unit.
    pub fn new_derived(conversion: DerivedConversion, power: i64, sci_exponent: i32) -> (unit: Self)
        ensures
            unit.conversion == Constituent::DerivedConversion(conversion),
            unit.power == power,
            unit.sci_exponent == sci_exponent,
    {
        Self { conversion: Constituent::DerivedConversion(conversion), power, sci_exponent }
    }
}

} // verus!
