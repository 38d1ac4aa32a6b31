//! The names of a table and whether two units share one.

use super::derived::{DerivedConversion, DerivedView};
use super::{Conversion, TableView, UnitSpaceView, UnitTable};
use crate::text::same_text;
use vstd::prelude::*;

verus! {

/// The names of the units of the spaces from `from` on: of each unit its
/// name, then its aliases.
pub open spec fn space_names(spaces: Seq<UnitSpaceView>, from: int) -> Seq<&'static str>
    decreases spaces.len() - from,
{
    if from < 0 || from >= spaces.len() {
        Seq::empty()
    } else {
        unit_names(spaces[from].units, 0) + space_names(spaces, from + 1)
    }
}

/// The names of the units from position `from` on.
pub open spec fn unit_names(units: Seq<Conversion>, from: int) -> Seq<&'static str>
    decreases units.len() - from,
{
    if from < 0 || from >= units.len() {
        Seq::empty()
    } else {
        seq![units[from].name] + units[from].aliases@ + unit_names(units, from + 1)
    }
}

/// The names of the derived units of the groups from `from` on.
pub open spec fn group_names(groups: Seq<Seq<DerivedView>>, from: int) -> Seq<&'static str>
    decreases groups.len() - from,
{
    if from < 0 || from >= groups.len() {
        Seq::empty()
    } else {
        derived_names(groups[from], 0) + group_names(groups, from + 1)
    }
}

/// The names of the derived units of a group from position `from` on.
pub open spec fn derived_names(group: Seq<DerivedView>, from: int) -> Seq<&'static str>
    decreases group.len() - from,
{
    if from < 0 || from >= group.len() {
        Seq::empty()
    } else {
        seq![group[from].name] + group[from].aliases@ + derived_names(group, from + 1)
    }
}

/// Every name and alias of every unit and derived unit of the table.
pub open spec fn all_names(table: TableView) -> Seq<&'static str> {
    space_names(table.spaces, 0) + group_names(table.derived, 0)
}

/// Whether the name at `at` stands at an earlier position too.
pub open spec fn stands_before(names: Seq<&'static str>, at: int) -> bool {
    exists|i: int| 0 <= i < at && (#[trigger] names[i])@ == names[at]@
}

/// The names below position `upto` that stand at an earlier position too,
/// once for each time they come again.
pub open spec fn repeated(names: Seq<&'static str>, upto: int) -> Seq<&'static str>
    decreases upto,
{
    if upto <= 0 {
        Seq::empty()
    } else if stands_before(names, upto - 1) {
        repeated(names, upto - 1).push(names[upto - 1])
    } else {
        repeated(names, upto - 1)
    }
}

/// Whether no two positions hold the same name.
pub open spec fn distinct(names: Seq<&'static str>) -> bool {
    forall|i: int, j: int| 0 <= i < j < names.len() ==> (#[trigger] names[i])@ != (#[trigger] names[j])@
}

/// No name is repeated exactly where all names are distinct.
pub proof fn lemma_repeated_none(names: Seq<&'static str>, upto: int)
    requires
        0 <= upto <= names.len(),
    ensures
        repeated(names, upto).len() == 0 <==> distinct(names.take(upto)),
    decreases upto,
{
    if upto > 0 {
        lemma_repeated_none(names, upto - 1);
        let shorter = names.take(upto - 1);
        let longer = names.take(upto);
        if distinct(longer) {
            assert forall|i: int, j: int| 0 <= i < j < shorter.len() implies (#[trigger] shorter[i])@ != (
            #[trigger] shorter[j])@ by {
                assert(longer[i] == shorter[i] && longer[j] == shorter[j]);
            }
            if stands_before(names, upto - 1) {
                let i = choose|i: int| 0 <= i < upto - 1 && (#[trigger] names[i])@ == names[upto - 1]@;
                assert(longer[i] == names[i] && longer[upto - 1] == names[upto - 1]);
            }
        }
        if repeated(names, upto).len() == 0 {
            assert forall|i: int, j: int| 0 <= i < j < longer.len() implies (#[trigger] longer[i])@ != (
            #[trigger] longer[j])@ by {
                if j < upto - 1 {
                    assert(shorter[i] == longer[i] && shorter[j] == longer[j]);
                } else {
                    assert(names[i] == longer[i]);
                }
            }
        }
    }
}

fn push_names(names: &mut Vec<&'static str>, name: &'static str, aliases: &'static [&'static str])
    ensures
        final(names)@ == old(names)@ + (seq![name] + aliases@),
{
    names.push(name);
    let mut i: usize = 0;
    while i < aliases.len()
        invariant
            i <= aliases@.len(),
            names@ == old(names)@ + (seq![name] + aliases@.take(i as int)),
        decreases aliases@.len() - i,
    {
        names.push(aliases[i]);
        assert(names@ =~= old(names)@ + (seq![name] + aliases@.take(i + 1)));
        i += 1;
    }
    assert(aliases@.take(aliases@.len() as int) =~= aliases@);
}

impl UnitTable {
    /// Every name and alias of every unit and derived unit, in the order
    /// of the table.
    pub fn names(&self) -> (names: Vec<&'static str>)
        ensures
            names@ == all_names(self@),
    {
        let ghost spaces = self@.spaces;
        let ghost groups = self@.derived;
        let mut names: Vec<&'static str> = Vec::new();
        let mut s: usize = 0;
        while s < self.spaces.len()
            invariant
                s <= self.spaces@.len(),
                spaces == self@.spaces,
                names@ + space_names(spaces, s as int) == space_names(spaces, 0),
            decreases self.spaces@.len() - s,
        {
            let space = &self.spaces[s];
            let ghost units = spaces[s as int].units;
            assert(units == space.units@);
            let ghost before = names@;
            let mut i: usize = 0;
            while i < space.units.len()
                invariant
                    i <= space.units@.len(),
                    units == space.units@,
                    names@ + unit_names(units, i as int) == before + unit_names(units, 0),
                decreases space.units@.len() - i,
            {
                let ghost so_far = names@;
                push_names(&mut names, space.units[i].name, space.units[i].aliases);
                proof {
                    let own = seq![units[i as int].name] + units[i as int].aliases@;
                    assert(so_far + own + unit_names(units, i + 1) =~= so_far + (own + unit_names(
                        units,
                        i + 1,
                    )));
                }
                i += 1;
            }
            proof {
                assert(names@ + Seq::<&'static str>::empty() =~= names@);
                assert(before + unit_names(units, 0) + space_names(spaces, s + 1) =~= before + (
                unit_names(units, 0) + space_names(spaces, s + 1)));
            }
            s += 1;
        }
        let ghost first = names@;
        assert(first + Seq::<&'static str>::empty() =~= first);
        let mut g: usize = 0;
        while g < self.derived.len()
            invariant
                g <= self.derived@.len(),
                groups == self@.derived,
                first == space_names(spaces, 0),
                names@ + group_names(groups, g as int) == first + group_names(groups, 0),
            decreases self.derived@.len() - g,
        {
            let group = &self.derived[g];
            let ghost members = groups[g as int];
            assert(members =~= group@.map_values(|unit: DerivedConversion| unit@));
            let ghost before = names@;
            let mut i: usize = 0;
            while i < group.len()
                invariant
                    i <= group@.len(),
                    members.len() == group@.len(),
                    forall|k: int| 0 <= k < group@.len() ==> members[k] == (#[trigger] group@[k])@,
                    names@ + derived_names(members, i as int) == before + derived_names(members, 0),
                decreases group@.len() - i,
            {
                let ghost so_far = names@;
                push_names(&mut names, group[i].name, group[i].aliases);
                proof {
                    let own = seq![members[i as int].name] + members[i as int].aliases@;
                    assert(so_far + own + derived_names(members, i + 1) =~= so_far + (own
                        + derived_names(members, i + 1)));
                }
                i += 1;
            }
            proof {
                assert(names@ + Seq::<&'static str>::empty() =~= names@);
                assert(before + derived_names(members, 0) + group_names(groups, g + 1) =~= before
                    + (derived_names(members, 0) + group_names(groups, g + 1)));
            }
            g += 1;
        }
        assert(names@ + Seq::<&'static str>::empty() =~= names@);
        names
    }

    /// The names that two units or derived units share: each name that
    /// stands in [`UnitTable::names`] before, once for each time it comes
    /// again. The table is free of collisions exactly when there is none.
    pub fn name_collisions(&self) -> (collisions: Vec<&'static str>)
        ensures
            collisions@ == repeated(all_names(self@), all_names(self@).len() as int),
            collisions@.len() == 0 <==> distinct(all_names(self@)),
    {
        let names = self.names();
        let mut collisions: Vec<&'static str> = Vec::new();
        let mut j: usize = 0;
        while j < names.len()
            invariant
                j <= names@.len(),
                collisions@ == repeated(names@, j as int),
            decreases names@.len() - j,
        {
            let mut i: usize = 0;
            let mut found = false;
            while i < j && !found
                invariant
                    i <= j < names@.len(),
                    found ==> stands_before(names@, j as int),
                    !found ==> forall|k: int| 0 <= k < i ==> (#[trigger] names@[k])@ != names@[j as int]@,
                decreases j - i + (if found { 0int } else { 1int }),
            {
                if same_text(names[i], names[j]) {
                    found = true;
                } else {
                    i += 1;
                }
            }
            if found {
                collisions.push(names[j]);
            }
            j += 1;
        }
        proof {
            lemma_repeated_none(names@, names@.len() as int);
            assert(names@.take(names@.len() as int) =~= names@);
        }
        collisions
    }
}

} // verus!
