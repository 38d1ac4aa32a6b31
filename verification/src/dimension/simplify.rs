//! Merging the units of one space into a single unit.

use super::space_powers::{
    bounded, lemma_totals_nonnegative, magnitude, occurs, power_in, share, space_powers, total_power,
    total_scale,
};
use super::{Unit, POWER_LIMIT};
use crate::units::Space;
use vstd::prelude::*;

verus! {

/// The position of the first unit of the space from `from` on, if there
/// is one.
pub open spec fn position_of(units: Seq<Unit>, space: Space, from: int) -> Option<int>
    decreases units.len() - from,
{
    if from < 0 || from >= units.len() {
        None
    } else if units[from].conversion.space == space {
        Some(from)
    } else {
        position_of(units, space, from + 1)
    }
}

/// A unit with the power and the scale exponent of `unit` added to it.
pub open spec fn absorbed(into: Unit, unit: Unit) -> Unit {
    Unit {
        conversion: into.conversion,
        power: (into.power + unit.power) as i64,
        sci_exponent: (into.sci_exponent + unit.sci_exponent) as i64,
    }
}

/// The list with `unit` merged in: added to the first unit of its space,
/// or appended where the list has none of that space.
pub open spec fn merged(units: Seq<Unit>, unit: Unit) -> Seq<Unit> {
    match position_of(units, unit.conversion.space, 0) {
        Some(j) => units.update(j, absorbed(units[j], unit)),
        None => units.push(unit),
    }
}

/// One unit for each space, in the order in which the spaces first occur:
/// the first unit of the space, with the powers and the scale exponents of
/// all units of the space summed.
pub open spec fn simplified(units: Seq<Unit>) -> Seq<Unit>
    decreases units.len(),
{
    if units.len() == 0 {
        Seq::empty()
    } else {
        merged(simplified(units.drop_last()), units.last())
    }
}

/// Whether no two units are of the same space.
pub open spec fn distinct_spaces(units: Seq<Unit>) -> bool {
    forall|i: int, j: int|
        0 <= i < j < units.len() ==> (#[trigger] units[i]).conversion.space != (
        #[trigger] units[j]).conversion.space
}

/// What [`position_of`] finds is the first unit of the space; where it
/// finds none, there is none.
pub proof fn lemma_position_of(units: Seq<Unit>, space: Space, from: int)
    requires
        0 <= from,
    ensures
        match position_of(units, space, from) {
            Some(j) => from <= j < units.len() && units[j].conversion.space == space && forall|k: int|
                from <= k < j ==> (#[trigger] units[k]).conversion.space != space,
            None => forall|k: int|
                from <= k < units.len() ==> (#[trigger] units[k]).conversion.space != space,
        },
    decreases units.len() - from,
{
    if from < units.len() && units[from].conversion.space != space {
        lemma_position_of(units, space, from + 1);
    }
}

proof fn lemma_merged_distinct(units: Seq<Unit>, unit: Unit)
    requires
        distinct_spaces(units),
    ensures
        distinct_spaces(merged(units, unit)),
{
    lemma_position_of(units, unit.conversion.space, 0);
}

proof fn lemma_simplified_distinct(units: Seq<Unit>)
    ensures
        distinct_spaces(simplified(units)),
    decreases units.len(),
{
    if units.len() > 0 {
        lemma_simplified_distinct(units.drop_last());
        lemma_merged_distinct(simplified(units.drop_last()), units.last());
    }
}

proof fn lemma_distinct_stay(units: Seq<Unit>)
    requires
        distinct_spaces(units),
    ensures
        simplified(units) == units,
    decreases units.len(),
{
    if units.len() > 0 {
        let front = units.drop_last();
        assert forall|i: int, j: int| 0 <= i < j < front.len() implies (#[trigger] front[i]).conversion.space
            != (#[trigger] front[j]).conversion.space by {
            assert(front[i] == units[i] && front[j] == units[j]);
        }
        lemma_distinct_stay(front);
        lemma_position_of(front, units.last().conversion.space, 0);
        if position_of(front, units.last().conversion.space, 0) is Some {
            let j = position_of(front, units.last().conversion.space, 0)->Some_0;
            assert(front[j] == units[j]);
            assert(units[units.len() - 1] == units.last());
        }
        assert(front.push(units.last()) =~= units);
    }
}

/// Simplifying twice gives what simplifying once gives.
pub proof fn simplify_is_idempotent(units: Seq<Unit>)
    ensures
        simplified(simplified(units)) == simplified(units),
{
    lemma_simplified_distinct(units);
    lemma_distinct_stay(simplified(units));
}

proof fn lemma_totals_of_update(units: Seq<Unit>, j: int, unit: Unit)
    requires
        0 <= j < units.len(),
    ensures
        total_power(units.update(j, unit)) == total_power(units) - magnitude(units[j].power as int)
            + magnitude(unit.power as int),
        total_scale(units.update(j, unit)) == total_scale(units) - magnitude(
            units[j].sci_exponent as int,
        ) + magnitude(unit.sci_exponent as int),
    decreases units.len(),
{
    if j == units.len() - 1 {
        assert(units.update(j, unit).drop_last() =~= units.drop_last());
    } else {
        lemma_totals_of_update(units.drop_last(), j, unit);
        assert(units.update(j, unit).drop_last() =~= units.drop_last().update(j, unit));
    }
}

/// Merging a unit in adds at most its magnitudes to the totals, and the
/// sums stay exact while the totals are within the limit.
pub proof fn lemma_merged_totals(units: Seq<Unit>, unit: Unit)
    requires
        total_power(units) + magnitude(unit.power as int) <= POWER_LIMIT,
        total_scale(units) + magnitude(unit.sci_exponent as int) <= POWER_LIMIT,
    ensures
        total_power(merged(units, unit)) <= total_power(units) + magnitude(unit.power as int),
        total_scale(merged(units, unit)) <= total_scale(units) + magnitude(unit.sci_exponent as int),
        match position_of(units, unit.conversion.space, 0) {
            Some(j) => 0 <= j < units.len() && -POWER_LIMIT <= units[j].power + unit.power
                <= POWER_LIMIT && -POWER_LIMIT <= units[j].sci_exponent + unit.sci_exponent
                <= POWER_LIMIT,
            None => true,
        },
{
    lemma_position_of(units, unit.conversion.space, 0);
    match position_of(units, unit.conversion.space, 0) {
        Some(j) => {
            super::space_powers::lemma_each_within_total(units, j);
            lemma_totals_of_update(units, j, absorbed(units[j], unit));
        },
        None => {
            assert(units.push(unit).drop_last() =~= units);
        },
    }
}

/// Simplifying does not raise the totals.
pub proof fn lemma_simplified_totals(units: Seq<Unit>)
    requires
        total_power(units) <= POWER_LIMIT,
        total_scale(units) <= POWER_LIMIT,
    ensures
        total_power(simplified(units)) <= total_power(units),
        total_scale(simplified(units)) <= total_scale(units),
    decreases units.len(),
{
    if units.len() > 0 {
        lemma_totals_nonnegative(units.drop_last());
        lemma_simplified_totals(units.drop_last());
        lemma_merged_totals(simplified(units.drop_last()), units.last());
    }
}

/// Whether the special units are exactly those of the dynamic space, as
/// the units of every table and every constant are.
pub open spec fn special_is_dynamic(units: Seq<Unit>) -> bool {
    forall|i: int|
        0 <= i < units.len() ==> ((#[trigger] units[i]).conversion.special <==> units[i].conversion.space
            == Space::Dynamic)
}

proof fn lemma_powers_of_update(units: Seq<Unit>, j: int, unit: Unit, space: Space)
    requires
        0 <= j < units.len(),
    ensures
        power_in(units.update(j, unit), space) == power_in(units, space) - share(units[j], space)
            + share(unit, space),
    decreases units.len(),
{
    if j == units.len() - 1 {
        assert(units.update(j, unit).drop_last() =~= units.drop_last());
    } else {
        lemma_powers_of_update(units.drop_last(), j, unit, space);
        assert(units.update(j, unit).drop_last() =~= units.drop_last().update(j, unit));
    }
}

proof fn lemma_merged_powers(units: Seq<Unit>, unit: Unit, space: Space)
    requires
        special_is_dynamic(units),
        unit.conversion.special <==> unit.conversion.space == Space::Dynamic,
        total_power(units) + magnitude(unit.power as int) <= POWER_LIMIT,
        total_scale(units) + magnitude(unit.sci_exponent as int) <= POWER_LIMIT,
    ensures
        special_is_dynamic(merged(units, unit)),
        power_in(merged(units, unit), space) == power_in(units, space) + share(unit, space),
        occurs(merged(units, unit), space) == (occurs(units, space) || (!unit.conversion.special
            && unit.conversion.space == space)),
{
    let after = merged(units, unit);
    lemma_position_of(units, unit.conversion.space, 0);
    lemma_merged_totals(units, unit);
    match position_of(units, unit.conversion.space, 0) {
        Some(j) => {
            lemma_powers_of_update(units, j, absorbed(units[j], unit), space);
            assert(units[j].conversion.special == unit.conversion.special);
            if occurs(after, space) {
                let i = choose|i: int|
                    0 <= i < after.len() && !(#[trigger] after[i]).conversion.special
                        && after[i].conversion.space == space;
                assert(after[i].conversion == units[i].conversion);
            }
            if occurs(units, space) {
                let i = choose|i: int|
                    0 <= i < units.len() && !(#[trigger] units[i]).conversion.special
                        && units[i].conversion.space == space;
                assert(after[i].conversion == units[i].conversion);
            }
            if !unit.conversion.special && unit.conversion.space == space {
                assert(after[j].conversion == units[j].conversion);
            }
        },
        None => {
            assert(after.drop_last() =~= units);
            if occurs(after, space) {
                let i = choose|i: int|
                    0 <= i < after.len() && !(#[trigger] after[i]).conversion.special
                        && after[i].conversion.space == space;
                if i < units.len() {
                    assert(units[i] == after[i]);
                }
            }
            if occurs(units, space) {
                let i = choose|i: int|
                    0 <= i < units.len() && !(#[trigger] units[i]).conversion.special
                        && units[i].conversion.space == space;
                assert(after[i] == units[i]);
            }
            if !unit.conversion.special && unit.conversion.space == space {
                assert(after[units.len() as int] == unit);
            }
        },
    }
}

proof fn lemma_simplified_powers(units: Seq<Unit>, space: Space)
    requires
        special_is_dynamic(units),
        bounded(units),
    ensures
        special_is_dynamic(simplified(units)),
        power_in(simplified(units), space) == power_in(units, space),
        occurs(simplified(units), space) == occurs(units, space),
    decreases units.len(),
{
    if units.len() > 0 {
        let front = units.drop_last();
        assert forall|i: int| 0 <= i < front.len() implies ((#[trigger] front[i]).conversion.special <==> front[i].conversion.space
            == Space::Dynamic) by {
            assert(front[i] == units[i]);
        }
        assert(units[units.len() - 1] == units.last());
        lemma_totals_nonnegative(front);
        lemma_simplified_powers(front, space);
        lemma_simplified_totals(front);
        lemma_merged_powers(simplified(front), units.last(), space);
        if occurs(units, space) {
            let i = choose|i: int|
                0 <= i < units.len() && !(#[trigger] units[i]).conversion.special && units[i].conversion.space
                    == space;
            if i < front.len() {
                assert(front[i] == units[i]);
            }
        }
        if occurs(front, space) {
            let i = choose|i: int|
                0 <= i < front.len() && !(#[trigger] front[i]).conversion.special && front[i].conversion.space
                    == space;
            assert(units[i] == front[i]);
        }
    } else {
        assert(!occurs(units, space));
    }
}

/// Simplifying does not change what dimensions compare as: the simplified
/// units have the space powers of the units themselves, where these are
/// within the limit and their special units are those of the dynamic space.
pub proof fn simplify_keeps_space_powers(units: Seq<Unit>)
    requires
        special_is_dynamic(units),
        bounded(units),
    ensures
        space_powers(simplified(units)) == space_powers(units),
{
    assert forall|space: Space|
        occurs(simplified(units), space) == occurs(units, space) && power_in(
            simplified(units),
            space,
        ) == power_in(units, space) by {
        lemma_simplified_powers(units, space);
    }
    assert(space_powers(simplified(units)) =~= space_powers(units));
}

} // verus!
