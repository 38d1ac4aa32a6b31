//! Unit definitions and the lookup of a unit by one of its names.

use crate::prefix::{prefixes_spec, Prefix};
use crate::shorthand::{shorthand_named, shorthands_spec, shorthands_view, Shorthand, ShorthandView};
use crate::text::{ascii_lowercase, is_lowercase_of, same_text};
use crate::units::derived::{
    derived_named, derived_units_spec, groups_view, DerivedConversion, DerivedView,
};
use vstd::prelude::*;

pub mod angle;
pub mod derived;
pub mod electric_current;
pub mod length;
pub mod luminous_intensity;
pub mod mass;
pub mod names;
pub mod quantity;
pub mod temperature;
pub mod time;

verus! {

/// A physical dimension. Two units convert into each other only within one
/// space.
#[derive(Debug, PartialEq, Eq, Clone, Copy, Hash, Structural)]
pub enum Space {
    Angle,
    ElectricCurrent,
    Length,
    LuminousIntensity,
    Mass,
    Quantity,
    Temperature,
    Time,
    /// The space of the virtual units that carry the constant factor of a
    /// derived unit.
    Dynamic,
}

/// The number of spaces.
pub const SPACE_COUNT: u8 = 9;

impl Space {
    /// The position of the space in the declaration above.
    pub open spec fn index_spec(self) -> u8 {
        match self {
            Space::Angle => 0,
            Space::ElectricCurrent => 1,
            Space::Length => 2,
            Space::LuminousIntensity => 3,
            Space::Mass => 4,
            Space::Quantity => 5,
            Space::Temperature => 6,
            Space::Time => 7,
            Space::Dynamic => 8,
        }
    }

    /// The position of the space in its declaration, from 0 on.
    #[verifier::when_used_as_spec(index_spec)]
    pub fn index(self) -> (i: u8)
        ensures
            i == self.index_spec(),
            i < SPACE_COUNT,
    {
        match self {
            Space::Angle => 0,
            Space::ElectricCurrent => 1,
            Space::Length => 2,
            Space::LuminousIntensity => 3,
            Space::Mass => 4,
            Space::Quantity => 5,
            Space::Temperature => 6,
            Space::Time => 7,
            Space::Dynamic => 8,
        }
    }

    /// The space at a position; positions past the last give `Dynamic`.
    pub open spec fn at_spec(i: u8) -> Space {
        if i == 0 {
            Space::Angle
        } else if i == 1 {
            Space::ElectricCurrent
        } else if i == 2 {
            Space::Length
        } else if i == 3 {
            Space::LuminousIntensity
        } else if i == 4 {
            Space::Mass
        } else if i == 5 {
            Space::Quantity
        } else if i == 6 {
            Space::Temperature
        } else if i == 7 {
            Space::Time
        } else {
            Space::Dynamic
        }
    }

    /// The space at a position; positions past the last give `Dynamic`.
    #[verifier::when_used_as_spec(at_spec)]
    pub fn at(i: u8) -> (space: Space)
        ensures
            space == Space::at_spec(i),
            i < SPACE_COUNT ==> space.index() == i,
    {
        if i == 0 {
            Space::Angle
        } else if i == 1 {
            Space::ElectricCurrent
        } else if i == 2 {
            Space::Length
        } else if i == 3 {
            Space::LuminousIntensity
        } else if i == 4 {
            Space::Mass
        } else if i == 5 {
            Space::Quantity
        } else if i == 6 {
            Space::Temperature
        } else if i == 7 {
            Space::Time
        } else {
            Space::Dynamic
        }
    }

    /// The name of the space in lower case, as a value.
    pub open spec fn name_spec(self) -> &'static str {
        match self {
            Space::Angle => "angle",
            Space::ElectricCurrent => "electric current",
            Space::Length => "length",
            Space::LuminousIntensity => "luminous intensity",
            Space::Mass => "mass",
            Space::Quantity => "quantity",
            Space::Temperature => "temperature",
            Space::Time => "time",
            Space::Dynamic => "dynamic",
        }
    }

    /// The name of the space in lower case.
    #[verifier::when_used_as_spec(name_spec)]
    pub fn name(self) -> (name: &'static str)
        ensures
            name == self.name_spec(),
    {
        match self {
            Space::Angle => "angle",
            Space::ElectricCurrent => "electric current",
            Space::Length => "length",
            Space::LuminousIntensity => "luminous intensity",
            Space::Mass => "mass",
            Space::Quantity => "quantity",
            Space::Temperature => "temperature",
            Space::Time => "time",
            Space::Dynamic => "dynamic",
        }
    }
}

/// The decimal number `mantissa * 10^exponent`.
#[derive(Debug, Clone, Copy, PartialEq, Eq)]
pub struct Decimal {
    pub mantissa: u64,
    pub exponent: i32,
}

/// How a value in a unit becomes a value in the base unit of its space, and
/// back. The arithmetic itself is the caller's; this names it.
#[derive(Debug, Clone, Copy, PartialEq, Eq)]
pub enum Formula {
    /// The unit is the base unit.
    Identity,
    /// To the base unit: times `to_base`. From it: divided by `from_base`.
    Linear { to_base: Decimal, from_base: Decimal },
    /// Full turns to radians: times two pi.
    Turn,
    /// Degrees to radians: times pi, divided by 180.
    Degree,
    /// Gradians to radians: times pi, divided by 200.
    Gradian,
    /// Degrees Celsius to kelvins: plus 273.15.
    Celsius,
    /// Degrees Fahrenheit to kelvins.
    Fahrenheit,
    /// Degrees Rankine to kelvins: times five ninths.
    Rankine,
}

/// The definition of a unit.
#[derive(Debug, Clone, Copy, PartialEq)]
pub struct Conversion {
    /// The name of the unit, in lower case.
    pub name: &'static str,
    pub description: Option<&'static str>,
    pub link: Option<&'static str>,
    /// The space of the unit.
    pub space: Space,
    /// Converts between this unit and the base unit of its space.
    pub formula: Formula,
    /// Other names of the unit.
    pub aliases: &'static [&'static str],
    /// Metric units can take metric prefixes.
    pub metric: bool,
    /// Special units are virtual: they carry the constant of a derived unit.
    pub special: bool,
}

/// Whether one of `aliases` is exactly `name`.
pub open spec fn has_alias(aliases: Seq<&'static str>, name: Seq<char>) -> bool {
    exists|i: int| 0 <= i < aliases.len() && (#[trigger] aliases[i])@ == name
}

/// Whether `name` is the given canonical name, in any ASCII case, or exactly
/// one of the aliases.
pub open spec fn answers_to(canonical: &'static str, aliases: Seq<&'static str>, name: Seq<char>) -> bool {
    canonical@ == ascii_lowercase(name) || has_alias(aliases, name)
}

/// Looks for `name` among `aliases`.
pub fn is_among(aliases: &'static [&'static str], name: &str) -> (found: bool)
    ensures
        found == has_alias(aliases@, name@),
{
    let mut i: usize = 0;
    while i < aliases.len()
        invariant
            i <= aliases@.len(),
            forall|j: int| 0 <= j < i ==> (#[trigger] aliases@[j])@ != name@,
        decreases aliases@.len() - i,
    {
        if same_text(aliases[i], name) {
            return true;
        }
        i += 1;
    }
    false
}

impl Conversion {
    /// The virtual unit that multiplies by `factor`.
    pub open spec fn constant_spec(factor: Decimal) -> Conversion {
        Conversion {
            name: "virtual-unit",
            description: None,
            link: None,
            space: Space::Dynamic,
            formula: Formula::Linear { to_base: factor, from_base: factor },
            aliases: &[],
            metric: false,
            special: true,
        }
    }

    /// The virtual unit that multiplies by `factor`: special, of the
    /// dynamic space, without aliases.
    #[verifier::when_used_as_spec(constant_spec)]
    pub fn constant(factor: Decimal) -> (unit: Conversion)
        ensures
            unit == Conversion::constant_spec(factor),
    {
        Conversion {
            name: "virtual-unit",
            description: None,
            link: None,
            space: Space::Dynamic,
            formula: Formula::Linear { to_base: factor, from_base: factor },
            aliases: &[],
            metric: false,
            special: true,
        }
    }

    /// The name of the unit in the plural.
    pub fn to_string(&self) -> (text: String)
        ensures
            text@ == self.name@ + seq!['s'],
    {
        let mut out = self.name.to_owned();
        out.push('s');
        assert(out@ =~= self.name@ + seq!['s']);
        out
    }

    /// Whether the name is the name of this unit, in any ASCII case, or
    /// one of its aliases.
    pub open spec fn is_alias_spec(&self, name: &str) -> bool {
        answers_to(self.name, self.aliases@, name@)
    }

    /// Checks if the given name is the name or an alias of this unit.
    #[verifier::when_used_as_spec(is_alias_spec)]
    pub fn is_alias(&self, name: &str) -> (found: bool)
        ensures
            found == answers_to(self.name, self.aliases@, name@),
    {
        is_lowercase_of(self.name, name) || is_among(self.aliases, name)
    }
}

/// The units of one space.
#[derive(Debug)]
pub struct UnitSpace {
    /// The name of the unit space.
    pub name: &'static str,
    /// The space that the units measure.
    pub space: Space,
    /// All of the units in the space.
    pub units: Vec<Conversion>,
}

/// The mathematical value of a [`UnitSpace`].
pub struct UnitSpaceView {
    pub name: &'static str,
    pub space: Space,
    pub units: Seq<Conversion>,
}

impl View for UnitSpace {
    type V = UnitSpaceView;

    open spec fn view(&self) -> UnitSpaceView {
        UnitSpaceView { name: self.name, space: self.space, units: self.units@ }
    }
}

/// The first of `units`, from position `from` on, that answers to `name`.
pub open spec fn first_unit(units: Seq<Conversion>, name: Seq<char>, from: int) -> Option<Conversion>
    decreases units.len() - from,
{
    if from < 0 || from >= units.len() {
        None
    } else if answers_to(units[from].name, units[from].aliases@, name) {
        Some(units[from])
    } else {
        first_unit(units, name, from + 1)
    }
}

impl UnitSpace {
    /// The first unit of the space that answers to `name`.
    pub fn get(&self, name: &str) -> (found: Option<Conversion>)
        ensures
            found == first_unit(self.units@, name@, 0),
    {
        let mut i: usize = 0;
        while i < self.units.len()
            invariant
                i <= self.units@.len(),
                first_unit(self.units@, name@, 0) == first_unit(self.units@, name@, i as int),
            decreases self.units@.len() - i,
        {
            if self.units[i].is_alias(name) {
                return Some(self.units[i]);
            }
            i += 1;
        }
        None
    }
}

/// What a name can stand for.
#[derive(Debug, Clone, Copy, PartialEq)]
pub enum ConversionType<'a> {
    Conversion(Conversion),
    DerivedConversion(&'a DerivedConversion),
    Shorthand(&'a Shorthand),
}

/// The mathematical value of a [`ConversionType`].
pub enum ConversionTypeView {
    Conversion(Conversion),
    DerivedConversion(DerivedView),
    Shorthand(ShorthandView),
}

impl ConversionTypeView {
    /// Whether what the name stands for can take a metric prefix.
    pub open spec fn is_metric(self) -> bool {
        match self {
            ConversionTypeView::Conversion(c) => c.metric,
            ConversionTypeView::DerivedConversion(c) => c.metric,
            ConversionTypeView::Shorthand(c) => c.metric,
        }
    }
}

impl<'a> View for ConversionType<'a> {
    type V = ConversionTypeView;

    open spec fn view(&self) -> ConversionTypeView {
        match self {
            ConversionType::Conversion(c) => ConversionTypeView::Conversion(*c),
            ConversionType::DerivedConversion(c) => ConversionTypeView::DerivedConversion(c@),
            ConversionType::Shorthand(c) => ConversionTypeView::Shorthand(c@),
        }
    }
}

impl<'a> ConversionType<'a> {
    /// The unit, where this is one.
    pub fn as_conversion(&self) -> (conversion: Option<Conversion>)
        ensures
            conversion == (match self {
                ConversionType::Conversion(c) => Some(*c),
                _ => None,
            }),
    {
        if let ConversionType::Conversion(conversion) = self {
            return Some(*conversion);
        }
        None
    }

    /// Whether what the name stands for can take a metric prefix.
    pub fn is_metric(&self) -> (metric: bool)
        ensures
            metric == self@.is_metric(),
    {
        match self {
            ConversionType::Conversion(c) => c.metric,
            ConversionType::DerivedConversion(c) => c.metric,
            ConversionType::Shorthand(c) => c.metric,
        }
    }
}

/// All that a name can be looked up in: the units by space, the derived
/// units by group, the shorthands and the metric prefixes.
#[derive(Debug)]
pub struct UnitTable {
    pub spaces: Vec<UnitSpace>,
    pub derived: Vec<Vec<DerivedConversion>>,
    pub shorthands: Vec<Shorthand>,
    pub prefixes: Vec<Prefix>,
}

/// The values of a list of spaces.
pub open spec fn spaces_view(spaces: Seq<UnitSpace>) -> Seq<UnitSpaceView> {
    spaces.map_values(|space: UnitSpace| space@)
}

/// The units of every space, as values.
pub open spec fn unit_spaces_spec() -> Seq<UnitSpaceView> {
    seq![
        angle::units_spec(),
        electric_current::units_spec(),
        length::units_spec(),
        luminous_intensity::units_spec(),
        mass::units_spec(),
        quantity::units_spec(),
        temperature::units_spec(),
        time::units_spec(),
    ]
}

/// The mathematical value of a [`UnitTable`].
pub struct TableView {
    pub spaces: Seq<UnitSpaceView>,
    pub derived: Seq<Seq<DerivedView>>,
    pub shorthands: Seq<ShorthandView>,
    pub prefixes: Seq<Prefix>,
}

impl View for UnitTable {
    type V = TableView;

    open spec fn view(&self) -> TableView {
        TableView {
            spaces: spaces_view(self.spaces@),
            derived: groups_view(self.derived@),
            shorthands: shorthands_view(self.shorthands@),
            prefixes: self.prefixes@,
        }
    }
}

/// The units of every space.
pub fn unit_spaces() -> (spaces: Vec<UnitSpace>)
    ensures
        spaces_view(spaces@) == unit_spaces_spec(),
{
    let mut spaces: Vec<UnitSpace> = Vec::new();
    spaces.push(angle::units());
    spaces.push(electric_current::units());
    spaces.push(length::units());
    spaces.push(luminous_intensity::units());
    spaces.push(mass::units());
    spaces.push(quantity::units());
    spaces.push(temperature::units());
    spaces.push(time::units());
    assert(spaces_view(spaces@) =~= unit_spaces_spec());
    spaces
}

impl UnitTable {
    /// The standard table as a value.
    pub open spec fn standard_spec() -> TableView {
        TableView {
            spaces: unit_spaces_spec(),
            derived: derived_units_spec(),
            shorthands: shorthands_spec(),
            prefixes: prefixes_spec(),
        }
    }

    /// The table of the units, derived units, shorthands and prefixes that
    /// this library knows.
    pub fn standard() -> (table: UnitTable)
        ensures
            table@ == UnitTable::standard_spec(),
    {
        UnitTable {
            spaces: unit_spaces(),
            derived: derived::derived_units(),
            shorthands: crate::shorthand::shorthands(),
            prefixes: crate::prefix::prefixes(),
        }
    }
}

/// The first unit that answers to `name` in the first space, from position
/// `from` on, that holds one.
pub open spec fn base_named(spaces: Seq<UnitSpaceView>, name: Seq<char>, from: int) -> Option<
    Conversion,
>
    decreases spaces.len() - from,
{
    if from < 0 || from >= spaces.len() {
        None
    } else {
        match first_unit(spaces[from].units, name, 0) {
            Some(unit) => Some(unit),
            None => base_named(spaces, name, from + 1),
        }
    }
}

/// What `name` stands for: a unit of a space first, else a derived unit,
/// else a shorthand.
pub open spec fn unit_named(table: TableView, name: Seq<char>) -> Option<ConversionTypeView> {
    match base_named(table.spaces, name, 0) {
        Some(unit) => Some(ConversionTypeView::Conversion(unit)),
        None => match derived_named(table.derived, name, 0) {
            Some(unit) => Some(ConversionTypeView::DerivedConversion(unit)),
            None => match shorthand_named(table.shorthands, name, 0) {
                Some(shorthand) => Some(ConversionTypeView::Shorthand(shorthand)),
                None => None,
            },
        },
    }
}

/// Looks up what a name stands for.
pub fn find_unit<'a>(table: &'a UnitTable, s: &str) -> (found: Option<ConversionType<'a>>)
    ensures
        match found {
            Some(unit) => unit_named(table@, s@) == Some(unit@),
            None => unit_named(table@, s@) is None,
        },
{
    let ghost spaces = spaces_view(table.spaces@);
    let mut i: usize = 0;
    while i < table.spaces.len()
        invariant
            i <= table.spaces@.len(),
            spaces == spaces_view(table.spaces@),
            base_named(spaces, s@, 0) == base_named(spaces, s@, i as int),
        decreases table.spaces@.len() - i,
    {
        if let Some(unit) = table.spaces[i].get(s) {
            return Some(ConversionType::Conversion(unit));
        }
        i += 1;
    }
    if let Some(unit) = derived::get(&table.derived, s) {
        return Some(ConversionType::DerivedConversion(unit));
    }
    if let Some(shorthand) = crate::shorthand::get(&table.shorthands, s) {
        return Some(ConversionType::Shorthand(shorthand));
    }
    None
}

} // verus!
