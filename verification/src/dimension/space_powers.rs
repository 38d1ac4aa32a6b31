//! The powers of a list of units, summed by space: what decides whether two
//! dimensions agree.

use super::{Unit, POWER_LIMIT};
use crate::units::{Space, SPACE_COUNT};
use vstd::prelude::*;

verus! {

/// What a unit adds to the power of a space: its own power if it is of
/// that space and not special, nothing otherwise.
pub open spec fn share(unit: Unit, space: Space) -> int {
    if !unit.conversion.special && unit.conversion.space == space {
        unit.power as int
    } else {
        0
    }
}

/// The sum of the powers of the units of a space, special units left out.
pub open spec fn power_in(units: Seq<Unit>, space: Space) -> int
    decreases units.len(),
{
    if units.len() == 0 {
        0
    } else {
        power_in(units.drop_last(), space) + share(units.last(), space)
    }
}

/// Whether a unit of the space occurs that is not special.
pub open spec fn occurs(units: Seq<Unit>, space: Space) -> bool {
    exists|i: int|
        0 <= i < units.len() && !(#[trigger] units[i]).conversion.special && units[i].conversion.space
            == space
}

/// The summed power of every space that occurs. A space whose powers
/// cancel still occurs, with power 0.
pub open spec fn space_powers(units: Seq<Unit>) -> Map<Space, int> {
    Map::new(|space: Space| occurs(units, space), |space: Space| power_in(units, space))
}

/// The magnitude of a number.
pub open spec fn magnitude(v: int) -> int {
    if v < 0 {
        -v
    } else {
        v
    }
}

/// The sum of the magnitudes of all powers.
pub open spec fn total_power(units: Seq<Unit>) -> int
    decreases units.len(),
{
    if units.len() == 0 {
        0
    } else {
        total_power(units.drop_last()) + magnitude(units.last().power as int)
    }
}

/// The sum of the magnitudes of all scale exponents.
pub open spec fn total_scale(units: Seq<Unit>) -> int
    decreases units.len(),
{
    if units.len() == 0 {
        0
    } else {
        total_scale(units.drop_last()) + magnitude(units.last().sci_exponent as int)
    }
}

/// Whether the powers and the scale exponents, summed by magnitude, stay
/// within the limit: then no sum of a part of them leaves 64 bits.
pub open spec fn bounded(units: Seq<Unit>) -> bool {
    total_power(units) <= POWER_LIMIT && total_scale(units) <= POWER_LIMIT
}

/// The totals of a part at the front are at most those of the whole.
pub proof fn lemma_totals_grow(units: Seq<Unit>, n: int)
    requires
        0 <= n <= units.len(),
    ensures
        0 <= total_power(units.take(n)) <= total_power(units),
        0 <= total_scale(units.take(n)) <= total_scale(units),
    decreases units.len() - n,
{
    if n == units.len() {
        assert(units.take(n) =~= units);
        lemma_totals_nonnegative(units);
    } else {
        lemma_totals_grow(units, n + 1);
        lemma_totals_nonnegative(units.take(n));
        assert(units.take(n + 1).drop_last() =~= units.take(n));
    }
}

/// The totals are not negative.
pub proof fn lemma_totals_nonnegative(units: Seq<Unit>)
    ensures
        0 <= total_power(units),
        0 <= total_scale(units),
    decreases units.len(),
{
    if units.len() > 0 {
        lemma_totals_nonnegative(units.drop_last());
    }
}

/// Each unit's power and scale exponent is at most the total.
pub proof fn lemma_each_within_total(units: Seq<Unit>, i: int)
    requires
        0 <= i < units.len(),
    ensures
        magnitude(units[i].power as int) <= total_power(units),
        magnitude(units[i].sci_exponent as int) <= total_scale(units),
    decreases units.len(),
{
    lemma_totals_nonnegative(units.drop_last());
    if i < units.len() - 1 {
        lemma_each_within_total(units.drop_last(), i);
    }
}

/// The power of a space is at most the total.
pub proof fn lemma_power_within_total(units: Seq<Unit>, space: Space)
    ensures
        magnitude(power_in(units, space)) <= total_power(units),
    decreases units.len(),
{
    if units.len() > 0 {
        lemma_power_within_total(units.drop_last(), space);
    }
}

proof fn lemma_occurs_step(units: Seq<Unit>, space: Space)
    requires
        units.len() > 0,
    ensures
        occurs(units, space) == (occurs(units.drop_last(), space) || (!units.last().conversion.special
            && units.last().conversion.space == space)),
{
    let front = units.drop_last();
    if occurs(units, space) {
        let i = choose|i: int|
            0 <= i < units.len() && !(#[trigger] units[i]).conversion.special && units[i].conversion.space
                == space;
        if i < units.len() - 1 {
            assert(front[i] == units[i]);
        }
    }
    if occurs(front, space) {
        let i = choose|i: int|
            0 <= i < front.len() && !(#[trigger] front[i]).conversion.special && front[i].conversion.space
                == space;
        assert(units[i] == front[i]);
    }
    if !units.last().conversion.special && units.last().conversion.space == space {
        assert(units[units.len() - 1] == units.last());
    }
}

proof fn lemma_power_without(units: Seq<Unit>, i: int, space: Space)
    requires
        0 <= i < units.len(),
    ensures
        power_in(units, space) == power_in(units.remove(i), space) + share(units[i], space),
    decreases units.len(),
{
    if i == units.len() - 1 {
        assert(units.remove(i) =~= units.drop_last());
    } else {
        lemma_power_without(units.drop_last(), i, space);
        assert(units.remove(i).drop_last() =~= units.drop_last().remove(i));
        assert(units.remove(i).last() == units.last());
    }
}

proof fn lemma_power_of_permutation(a: Seq<Unit>, b: Seq<Unit>, space: Space)
    requires
        a.to_multiset() == b.to_multiset(),
    ensures
        power_in(a, space) == power_in(b, space),
    decreases a.len(),
{
    broadcast use vstd::seq_lib::group_to_multiset_ensures;

    a.to_multiset_ensures();
    b.to_multiset_ensures();
    if a.len() == 0 {
        assert(b.len() == 0);
    } else {
        let x = a.last();
        let front = a.drop_last();
        assert(a =~= front.push(x));
        assert(a.to_multiset() =~= front.to_multiset().insert(x));
        assert(b.to_multiset().count(x) > 0);
        assert(b.contains(x));
        let i = choose|i: int| 0 <= i < b.len() && b[i] == x;
        vstd::seq_lib::to_multiset_remove(b, i);
        assert(b.remove(i).to_multiset() =~= front.to_multiset());
        lemma_power_of_permutation(front, b.remove(i), space);
        lemma_power_without(b, i, space);
    }
}

proof fn lemma_occurs_in_permutation(a: Seq<Unit>, b: Seq<Unit>, space: Space)
    requires
        a.to_multiset() == b.to_multiset(),
        occurs(a, space),
    ensures
        occurs(b, space),
{
    broadcast use vstd::seq_lib::group_to_multiset_ensures;

    a.to_multiset_ensures();
    b.to_multiset_ensures();
    let i = choose|i: int|
        0 <= i < a.len() && !(#[trigger] a[i]).conversion.special && a[i].conversion.space == space;
    assert(a.contains(a[i]));
    assert(b.to_multiset().count(a[i]) > 0);
    assert(b.contains(a[i]));
    let j = choose|j: int| 0 <= j < b.len() && b[j] == a[i];
    assert(!b[j].conversion.special && b[j].conversion.space == space);
}

/// The order of the units does not matter to the powers of the spaces:
/// two lists that hold the same units, each as often as the other, have
/// the same space powers, and so compare as equal dimensions.
pub proof fn equality_ignores_order(a: Seq<Unit>, b: Seq<Unit>)
    requires
        a.to_multiset() == b.to_multiset(),
    ensures
        space_powers(a) == space_powers(b),
{
    assert forall|space: Space| occurs(a, space) == occurs(b, space) by {
        if occurs(a, space) {
            lemma_occurs_in_permutation(a, b, space);
        }
        if occurs(b, space) {
            lemma_occurs_in_permutation(b, a, space);
        }
    }
    assert forall|space: Space| power_in(a, space) == power_in(b, space) by {
        lemma_power_of_permutation(a, b, space);
    }
    assert(space_powers(a) =~= space_powers(b));
}

/// The powers of a list of units by space, kept in a
/// `hashbrown::HashMap` under the index of the space. The map is opaque to
/// the verifier: what it holds goes by the name [`entries`], and only the
/// three methods below touch it.
#[verifier::external_body]
pub struct SpacePowers {
    inner: hashbrown::HashMap<u8, i64>,
}

/// What the map holds: the power under each key.
pub uninterp spec fn entries(powers: SpacePowers) -> Map<u8, i64>;

impl SpacePowers {
    /// `hashbrown::HashMap::new`. Taken on trust: the new map holds
    /// nothing.
    #[verifier::external_body]
    fn new() -> (powers: SpacePowers)
        ensures
            entries(powers) == (Map::<u8, i64>::empty()),
    {
        SpacePowers { inner: hashbrown::HashMap::new() }
    }

    /// `hashbrown::HashMap::get`. Taken on trust: it gives the value that
    /// the map holds under the key, and nothing where it holds none.
    #[verifier::external_body]
    fn get(&self, key: u8) -> (value: Option<i64>)
        ensures
            value == (if entries(*self).dom().contains(key) {
                Some(entries(*self)[key])
            } else {
                None
            }),
    {
        self.inner.get(&key).copied()
    }

    /// `hashbrown::HashMap::insert`. Taken on trust: afterwards the map
    /// holds the value under the key and, under every other key, what it
    /// held before.
    #[verifier::external_body]
    fn insert(&mut self, key: u8, value: i64)
        ensures
            entries(*final(self)) == entries(*old(self)).insert(key, value),
    {
        self.inner.insert(key, value);
    }

    /// Whether the map holds the powers of `units`: a key for each space
    /// that occurs, with the space's power.
    pub open spec fn holds(self, units: Seq<Unit>) -> bool {
        forall|space: Space|
            #![trigger occurs(units, space)]
            #![trigger power_in(units, space)]
            {
                &&& entries(self).dom().contains(space.index()) == occurs(units, space)
                &&& occurs(units, space) ==> entries(self)[space.index()] == power_in(units, space)
            }
    }

    /// Sums the powers of the units by space.
    pub(crate) fn of(units: &Vec<Unit>) -> (powers: SpacePowers)
        requires
            total_power(units@) <= POWER_LIMIT,
        ensures
            powers.holds(units@),
    {
        let mut powers = SpacePowers::new();
        let mut i: usize = 0;
        assert(units@.take(0) =~= Seq::<Unit>::empty());
        while i < units.len()
            invariant
                i <= units.len(),
                total_power(units@) <= POWER_LIMIT,
                powers.holds(units@.take(i as int)),
            decreases units.len() - i,
        {
            let unit = units[i];
            proof {
                let next = units@.take(i + 1);
                assert(next.drop_last() =~= units@.take(i as int));
                assert(next.last() == unit);
                assert forall|space: Space|
                    occurs(next, space) == (occurs(next.drop_last(), space) || (!unit.conversion.special
                        && unit.conversion.space == space)) by {
                    lemma_occurs_step(next, space);
                }
                lemma_power_within_total(next, unit.conversion.space);
                lemma_totals_grow(units@, i + 1);
            }
            if !unit.conversion.special {
                let key: u8 = unit.conversion.space.index();
                let so_far: i64 = match powers.get(key) {
                    Some(power) => power,
                    None => 0,
                };
                proof {
                    let before = units@.take(i as int);
                    if !occurs(before, unit.conversion.space) {
                        lemma_absent_space_has_no_power(before, unit.conversion.space);
                    }
                }
                powers.insert(key, so_far + unit.power);
            }
            i += 1;
        }
        assert(units@.take(units.len() as int) =~= units@);
        powers
    }

    /// The power that the map holds for a space.
    pub(crate) fn power_of(&self, space: Space, Ghost(units): Ghost<Seq<Unit>>) -> (power: Option<i64>)
        requires
            self.holds(units),
        ensures
            power == (if occurs(units, space) {
                Some(power_in(units, space) as i64)
            } else {
                None
            }),
            occurs(units, space) ==> power->Some_0 == power_in(units, space),
    {
        self.get(space.index())
    }

    /// Whether two maps hold the same spaces with the same powers.
    pub(crate) fn agrees(&self, other: &SpacePowers, Ghost(a): Ghost<Seq<Unit>>, Ghost(b): Ghost<Seq<Unit>>) -> (same: bool)
        requires
            self.holds(a),
            other.holds(b),
        ensures
            same == (space_powers(a) == space_powers(b)),
    {
        let mut key: u8 = 0;
        while key < SPACE_COUNT
            invariant
                key <= SPACE_COUNT,
                self.holds(a),
                other.holds(b),
                forall|space: Space|
                    space.index() < key ==> occurs(a, space) == occurs(b, space) && (occurs(a, space)
                        ==> power_in(a, space) == power_in(b, space)),
            decreases SPACE_COUNT - key,
        {
            let ghost space = Space::at(key);
            if self.get(key) != other.get(key) {
                proof {
                    assert(space.index() == key);
                    if space_powers(a) == space_powers(b) {
                        assert(space_powers(a).dom().contains(space) == occurs(a, space));
                        assert(space_powers(b).dom().contains(space) == occurs(b, space));
                        assert(occurs(a, space) ==> space_powers(a)[space] == power_in(a, space));
                        assert(occurs(b, space) ==> space_powers(b)[space] == power_in(b, space));
                    }
                }
                return false;
            }
            proof {
                assert(space.index() == key);
                assert forall|other_space: Space| other_space.index() == key implies other_space
                    == space by {}
            }
            key += 1;
        }
        assert(space_powers(a) =~= space_powers(b));
        true
    }
}

proof fn lemma_absent_space_has_no_power(units: Seq<Unit>, space: Space)
    requires
        !occurs(units, space),
    ensures
        power_in(units, space) == 0,
    decreases units.len(),
{
    if units.len() > 0 {
        lemma_occurs_step(units, space);
        lemma_absent_space_has_no_power(units.drop_last(), space);
    }
}

} // verus!
