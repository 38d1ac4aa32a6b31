//! The units and the derived units of a table as plain records, for
//! callers that show them.

use crate::dimension::display::{stringify_units, units_text};
use crate::units::derived::DerivedView;
use crate::units::{Conversion, UnitSpaceView, UnitTable};
use vstd::prelude::*;

verus! {

/// A unit as it is shown.
#[derive(Debug, Clone, Copy, PartialEq, Eq)]
pub struct Unit {
    pub name: &'static str,
    pub description: Option<&'static str>,
    pub link: Option<&'static str>,
    /// The name of the space of the unit.
    pub space: &'static str,
    pub aliases: &'static [&'static str],
    pub metric: bool,
}

/// A derived unit as it is shown.
#[derive(Debug, PartialEq, Eq)]
pub struct DerivedUnit {
    pub name: &'static str,
    pub description: Option<&'static str>,
    pub link: Option<&'static str>,
    pub aliases: &'static [&'static str],
    pub metric: bool,
    /// The units that the unit is a product of, special units left out.
    pub derived_from: String,
}

/// The mathematical value of a [`DerivedUnit`].
pub struct DerivedUnitView {
    pub name: &'static str,
    pub description: Option<&'static str>,
    pub link: Option<&'static str>,
    pub aliases: &'static [&'static str],
    pub metric: bool,
    pub derived_from: Seq<char>,
}

impl View for DerivedUnit {
    type V = DerivedUnitView;

    open spec fn view(&self) -> DerivedUnitView {
        DerivedUnitView {
            name: self.name,
            description: self.description,
            link: self.link,
            aliases: self.aliases,
            metric: self.metric,
            derived_from: self.derived_from@,
        }
    }
}

/// The record of a unit.
pub open spec fn shown(unit: Conversion) -> Unit {
    Unit {
        name: unit.name,
        description: unit.description,
        link: unit.link,
        space: unit.space.name(),
        aliases: unit.aliases,
        metric: unit.metric,
    }
}

/// The record of a derived unit.
pub open spec fn shown_derived(unit: DerivedView) -> DerivedUnitView {
    DerivedUnitView {
        name: unit.name,
        description: unit.description,
        link: unit.link,
        aliases: unit.aliases,
        metric: unit.metric,
        derived_from: units_text(unit.expand, false),
    }
}

/// The records of the units of the spaces from `from` on, space by space.
pub open spec fn all_units(spaces: Seq<UnitSpaceView>, from: int) -> Seq<Unit>
    decreases spaces.len() - from,
{
    if from < 0 || from >= spaces.len() {
        Seq::empty()
    } else {
        spaces[from].units.map_values(|unit: Conversion| shown(unit)) + all_units(spaces, from + 1)
    }
}

/// The records of the derived units of the groups from `from` on, group
/// by group.
pub open spec fn all_derived(groups: Seq<Seq<DerivedView>>, from: int) -> Seq<DerivedUnitView>
    decreases groups.len() - from,
{
    if from < 0 || from >= groups.len() {
        Seq::empty()
    } else {
        groups[from].map_values(|unit: DerivedView| shown_derived(unit)) + all_derived(
            groups,
            from + 1,
        )
    }
}

/// The views of a list of records.
pub open spec fn views(units: Seq<DerivedUnit>) -> Seq<DerivedUnitView> {
    units.map_values(|unit: DerivedUnit| unit@)
}

/// Every unit of the standard table, space by space.
pub fn get_units() -> (units: Vec<Unit>)
    ensures
        units@ == all_units(UnitTable::standard_spec().spaces, 0),
{
    let table = UnitTable::standard();
    units_of(&table)
}

/// Every derived unit of the standard table, group by group.
pub fn get_derived_units() -> (units: Vec<DerivedUnit>)
    ensures
        views(units@) == all_derived(UnitTable::standard_spec().derived, 0),
{
    let table = UnitTable::standard();
    derived_units_of(&table)
}

/// Every unit of the table, space by space.
pub fn units_of(table: &UnitTable) -> (units: Vec<Unit>)
    ensures
        units@ == all_units(table@.spaces, 0),
{
    let ghost spaces = table@.spaces;
    let mut units: Vec<Unit> = Vec::new();
    let mut s: usize = 0;
    while s < table.spaces.len()
        invariant
            s <= table.spaces@.len(),
            spaces == table@.spaces,
            units@ + all_units(spaces, s as int) == all_units(spaces, 0),
        decreases table.spaces@.len() - s,
    {
        let space = &table.spaces[s];
        let ghost before = units@;
        let ghost records = space.units@.map_values(|unit: Conversion| shown(unit));
        let mut i: usize = 0;
        while i < space.units.len()
            invariant
                i <= space.units@.len(),
                records == space.units@.map_values(|unit: Conversion| shown(unit)),
                units@ == before + records.take(i as int),
            decreases space.units@.len() - i,
        {
            let unit = space.units[i];
            units.push(
                Unit {
                    name: unit.name,
                    description: unit.description,
                    link: unit.link,
                    space: unit.space.name(),
                    aliases: unit.aliases,
                    metric: unit.metric,
                },
            );
            assert(units@ =~= before + records.take(i + 1));
            i += 1;
        }
        proof {
            assert(records.take(records.len() as int) =~= records);
            assert(spaces[s as int].units == space.units@);
            assert(before + records + all_units(spaces, s + 1) =~= before + (records + all_units(
                spaces,
                s + 1,
            )));
        }
        s += 1;
    }
    assert(units@ + Seq::<Unit>::empty() =~= units@);
    units
}

/// Every derived unit of the table, group by group.
pub fn derived_units_of(table: &UnitTable) -> (units: Vec<DerivedUnit>)
    ensures
        views(units@) == all_derived(table@.derived, 0),
{
    let ghost groups = table@.derived;
    let mut units: Vec<DerivedUnit> = Vec::new();
    let mut g: usize = 0;
    assert(views(units@) =~= Seq::<DerivedUnitView>::empty());
    while g < table.derived.len()
        invariant
            g <= table.derived@.len(),
            groups == table@.derived,
            views(units@) + all_derived(groups, g as int) == all_derived(groups, 0),
        decreases table.derived@.len() - g,
    {
        let group = &table.derived[g];
        let ghost before = views(units@);
        let ghost records = groups[g as int].map_values(|unit: DerivedView| shown_derived(unit));
        let mut i: usize = 0;
        assert(views(units@) =~= before + records.take(0));
        while i < group.len()
            invariant
                i <= group@.len(),
                records.len() == group@.len(),
                forall|k: int| 0 <= k < group@.len() ==> records[k] == shown_derived((#[trigger] group@[k])@),
                views(units@) == before + records.take(i as int),
            decreases group@.len() - i,
        {
            let unit = &group[i];
            let record = DerivedUnit {
                name: unit.name,
                description: unit.description,
                link: unit.link,
                aliases: unit.aliases,
                metric: unit.metric,
                derived_from: stringify_units(unit.expand.as_slice()),
            };
            assert(record@ == shown_derived(unit@));
            assert(views(units@.push(record)) =~= views(units@).push(record@));
            units.push(record);
            assert(views(units@) =~= before + records.take(i + 1));
            i += 1;
        }
        proof {
            assert(records.take(records.len() as int) =~= records);
            assert(before + records + all_derived(groups, g + 1) =~= before + (records + all_derived(
                groups,
                g + 1,
            )));
        }
        g += 1;
    }
    assert(views(units@) + Seq::<DerivedUnitView>::empty() =~= views(units@));
    units
}

} // verus!
