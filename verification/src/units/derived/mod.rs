//! Units that are a product of powers of other units.

use super::{answers_to, is_among, Conversion, Decimal};
use crate::dimension::Unit;
use crate::text::is_lowercase_of;
use vstd::prelude::*;

pub mod electric_charge;
pub mod energy;
pub mod force;
pub mod illuminance;
pub mod misc;
pub mod pressure;
pub mod radiation_dose;
pub mod radioactivity;
pub mod voltage;

verus! {

/// A virtual unit to the power of 1 that carries a constant factor and a
/// power of ten.
pub open spec fn constant_spec(factor: Decimal, sci_exponent: i64) -> Unit {
    Unit { conversion: Conversion::constant(factor), power: 1, sci_exponent }
}

/// The virtual unit to the power of 1 that multiplies by `factor` and by
/// ten to the power of `sci_exponent`.
#[verifier::when_used_as_spec(constant_spec)]
pub fn constant(factor: Decimal, sci_exponent: i64) -> (unit: Unit)
    ensures
        unit == constant_spec(factor, sci_exponent),
{
    Unit { conversion: Conversion::constant(factor), power: 1, sci_exponent }
}

/// The mathematical value of a [`DerivedConversion`].
pub struct DerivedView {
    pub name: &'static str,
    pub description: Option<&'static str>,
    pub link: Option<&'static str>,
    pub expand: Seq<Unit>,
    pub aliases: &'static [&'static str],
    pub metric: bool,
}

impl View for DerivedConversion {
    type V = DerivedView;

    open spec fn view(&self) -> DerivedView {
        DerivedView {
            name: self.name,
            description: self.description,
            link: self.link,
            expand: self.expand@,
            aliases: self.aliases,
            metric: self.metric,
        }
    }
}

/// The values of a group of derived units.
pub open spec fn group_view(group: Seq<DerivedConversion>) -> Seq<DerivedView> {
    group.map_values(|unit: DerivedConversion| unit@)
}

/// The values of groups of derived units.
pub open spec fn groups_view(groups: Seq<Vec<DerivedConversion>>) -> Seq<Seq<DerivedView>> {
    groups.map_values(|group: Vec<DerivedConversion>| group_view(group@))
}

/// The derived units as values, group by group.
pub open spec fn derived_units_spec() -> Seq<Seq<DerivedView>> {
    seq![
        electric_charge::units_spec(),
        energy::units_spec(),
        force::units_spec(),
        illuminance::units_spec(),
        misc::units_spec(),
        pressure::units_spec(),
        radiation_dose::units_spec(),
        radioactivity::units_spec(),
        voltage::units_spec(),
    ]
}

/// The derived units, group by group.
pub fn derived_units() -> (groups: Vec<Vec<DerivedConversion>>)
    ensures
        groups_view(groups@) == derived_units_spec(),
{
    let mut groups: Vec<Vec<DerivedConversion>> = Vec::new();
    groups.push(electric_charge::units());
    groups.push(energy::units());
    groups.push(force::units());
    groups.push(illuminance::units());
    groups.push(misc::units());
    groups.push(pressure::units());
    groups.push(radiation_dose::units());
    groups.push(radioactivity::units());
    groups.push(voltage::units());
    assert(groups_view(groups@) =~= derived_units_spec());
    groups
}

/// A unit that stands for a product of units.
#[derive(Debug, PartialEq)]
pub struct DerivedConversion {
    pub name: &'static str,
    pub description: Option<&'static str>,
    pub link: Option<&'static str>,
    /// The units whose product this unit is; a virtual unit among them
    /// carries a constant factor.
    pub expand: Vec<Unit>,
    pub aliases: &'static [&'static str],
    pub metric: bool,
}

/// The first of `units`, from position `from` on, that answers to `name`.
pub open spec fn first_derived(units: Seq<DerivedView>, name: Seq<char>, from: int) -> Option<
    DerivedView,
>
    decreases units.len() - from,
{
    if from < 0 || from >= units.len() {
        None
    } else if answers_to(units[from].name, units[from].aliases@, name) {
        Some(units[from])
    } else {
        first_derived(units, name, from + 1)
    }
}

/// The first unit that answers to `name` in the first group, from position
/// `from` on, that holds one.
pub open spec fn derived_named(groups: Seq<Seq<DerivedView>>, name: Seq<char>, from: int) -> Option<
    DerivedView,
>
    decreases groups.len() - from,
{
    if from < 0 || from >= groups.len() {
        None
    } else {
        match first_derived(groups[from], name, 0) {
            Some(unit) => Some(unit),
            None => derived_named(groups, name, from + 1),
        }
    }
}

/// Looks a derived unit up by its name, in any ASCII case, or by one of its
/// aliases.
pub fn get<'a>(groups: &'a Vec<Vec<DerivedConversion>>, s: &str) -> (found: Option<&'a DerivedConversion>)
    ensures
        match found {
            Some(unit) => derived_named(groups_view(groups@), s@, 0) == Some(unit@),
            None => derived_named(groups_view(groups@), s@, 0) is None,
        },
{
    let ghost views = groups_view(groups@);
    let mut g: usize = 0;
    while g < groups.len()
        invariant
            g <= groups@.len(),
            views == groups_view(groups@),
            derived_named(views, s@, 0) == derived_named(views, s@, g as int),
        decreases groups@.len() - g,
    {
        let group = &groups[g];
        let mut i: usize = 0;
        while i < group.len()
            invariant
                g < groups@.len(),
                group == groups@[g as int],
                views == groups_view(groups@),
                derived_named(views, s@, 0) == derived_named(views, s@, g as int),
                i <= group@.len(),
                first_derived(views[g as int], s@, 0) == first_derived(views[g as int], s@, i as int),
            decreases group@.len() - i,
        {
            let unit = &group[i];
            if is_lowercase_of(unit.name, s) || is_among(unit.aliases, s) {
                return Some(unit);
            }
            i += 1;
        }
        g += 1;
    }
    None
}

} // verus!
