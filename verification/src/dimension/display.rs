//! Units, dimensions and failures as text.

use super::space_powers::{lemma_power_within_total, occurs, power_in, SpacePowers};
use super::{Dimensions, Failure, ParseError, Unit};
use crate::text::{decimal, push_number, superscript};
use crate::units::{Space, SPACE_COUNT};
use vstd::prelude::*;

verus! {

/// A unit in brackets, under its own name or, where `by_space` is set,
/// under the name of its space, followed by its power in superscript
/// unless that is 1.
pub open spec fn unit_text(unit: Unit, by_space: bool) -> Seq<char> {
    seq!['['] + (if by_space {
        unit.conversion.space.name()@
    } else {
        unit.conversion.name@
    }) + seq![']'] + (if unit.power == 1 {
        Seq::empty()
    } else {
        superscript(unit.power as int)
    })
}

/// The texts of the units that are not special, with a space between each
/// two.
pub open spec fn units_text(units: Seq<Unit>, by_space: bool) -> Seq<char>
    decreases units.len(),
{
    if units.len() == 0 {
        Seq::empty()
    } else if units.last().conversion.special {
        units_text(units.drop_last(), by_space)
    } else if units_text(units.drop_last(), by_space).len() == 0 {
        unit_text(units.last(), by_space)
    } else {
        units_text(units.drop_last(), by_space) + seq![' '] + unit_text(units.last(), by_space)
    }
}

/// What a failure says.
pub open spec fn failure_text(failure: Failure) -> Seq<char> {
    match failure {
        Failure::UnmatchedParenthesis => "Unmatched closing parenthesis"@,
        Failure::UnclosedParenthesis => "Unmatched opening parenthesis"@,
        Failure::InvalidToken(text) => "Invalid token: "@ + text,
        Failure::MissingOperator => "Missing operator in expression"@,
        Failure::MissingOperand => "Missing operand in expression"@,
        Failure::UnexpectedNumber => "Unexpected number in expression"@,
        Failure::InvalidExponent => "Invalid exponent. (Expected number literal)"@,
        Failure::ExponentOverflow => "Exponent out of range"@,
    }
}

fn push_unit(out: &mut String, unit: &Unit, by_space: bool)
    ensures
        final(out)@ == old(out)@ + unit_text(*unit, by_space),
{
    out.push('[');
    if by_space {
        out.append(unit.conversion.space.name());
    } else {
        out.append(unit.conversion.name);
    }
    out.push(']');
    let ghost name = if by_space {
        unit.conversion.space.name()@
    } else {
        unit.conversion.name@
    };
    if unit.power != 1 {
        push_number(out, unit.power, true);
        assert(out@ =~= old(out)@ + (seq!['['] + name + seq![']'] + superscript(unit.power as int)));
    } else {
        assert(out@ =~= old(out)@ + (seq!['['] + name + seq![']'] + Seq::<char>::empty()));
    }
}

fn push_units(out: &mut String, units: &[Unit], by_space: bool)
    requires
        old(out)@.len() == 0,
    ensures
        final(out)@ == units_text(units@, by_space),
{
    let mut i: usize = 0;
    assert(units@.take(0) =~= Seq::<Unit>::empty());
    while i < units.len()
        invariant
            i <= units@.len(),
            out@ == units_text(units@.take(i as int), by_space),
        decreases units@.len() - i,
    {
        proof {
            assert(units@.take(i + 1).drop_last() =~= units@.take(i as int));
        }
        if !units[i].conversion.special {
            if !out.as_str().is_empty() {
                out.push(' ');
                assert(out@ =~= units_text(units@.take(i as int), by_space) + seq![' ']);
                push_unit(out, &units[i], by_space);
            } else {
                push_unit(out, &units[i], by_space);
                assert(out@ =~= unit_text(units@[i as int], by_space));
            }
        }
        i += 1;
    }
    assert(units@.take(units@.len() as int) =~= units@);
}

/// The units that are not special, each in brackets under its name, with
/// a space between each two.
pub fn stringify_units(units: &[Unit]) -> (text: String)
    ensures
        text@ == units_text(units@, false),
{
    let mut out = String::new();
    push_units(&mut out, units, false);
    out
}

impl Unit {
    /// The unit in brackets under its name, with its power in superscript
    /// unless that is 1.
    pub fn to_string(&self) -> (text: String)
        ensures
            text@ == unit_text(*self, false),
    {
        let mut out = String::new();
        push_unit(&mut out, self, false);
        assert(out@ =~= unit_text(*self, false));
        out
    }

    /// As [`Unit::to_string`], under the name of the space.
    pub fn to_space_string(&self) -> (text: String)
        ensures
            text@ == unit_text(*self, true),
    {
        let mut out = String::new();
        push_unit(&mut out, self, true);
        assert(out@ =~= unit_text(*self, true));
        out
    }
}

/// The spaces below `bound` that occur, each as its name in brackets, `^`
/// and its power, with a space between each two.
pub open spec fn base_text(units: Seq<Unit>, bound: int) -> Seq<char>
    decreases bound,
{
    if bound <= 0 {
        Seq::empty()
    } else if !occurs(units, Space::at((bound - 1) as u8)) {
        base_text(units, bound - 1)
    } else {
        base_text(units, bound - 1) + (if base_text(units, bound - 1).len() == 0 {
            Seq::<char>::empty()
        } else {
            seq![' ']
        }) + seq!['['] + Space::at((bound - 1) as u8).name()@ + seq![']', '^'] + decimal(
            power_in(units, Space::at((bound - 1) as u8)),
        )
    }
}

impl Dimensions {
    /// The units that are not special, each in brackets under its name,
    /// with a space between each two.
    pub fn to_string(&self) -> (text: String)
        ensures
            text@ == units_text(self@, false),
    {
        let mut out = String::new();
        push_units(&mut out, self.units.as_slice(), false);
        out
    }

    /// As [`Dimensions::to_string`], each unit under the name of its space.
    pub fn to_space_string(&self) -> (text: String)
        ensures
            text@ == units_text(self@, true),
    {
        let mut out = String::new();
        push_units(&mut out, self.units.as_slice(), true);
        out
    }

    /// The power of a space, if a unit of it occurs that is not special.
    pub fn get_space(&self, space: Space) -> (power: Option<i64>)
        ensures
            power == (if occurs(self@, space) {
                Some(power_in(self@, space) as i64)
            } else {
                None
            }),
            occurs(self@, space) ==> i64::MIN <= power_in(self@, space) <= i64::MAX,
    {
        proof {
            use_type_invariant(self);
            lemma_power_within_total(self.units@, space);
        }
        let powers = SpacePowers::of(&self.units);
        powers.power_of(space, Ghost(self.units@))
    }

    /// The spaces that occur, in the order of their declaration, each as
    /// its name in brackets, `^` and its power.
    pub fn as_base_units(&self) -> (text: String)
        ensures
            text@ == base_text(self@, SPACE_COUNT as int),
    {
        proof {
            use_type_invariant(self);
        }
        let powers = SpacePowers::of(&self.units);
        let mut out = String::new();
        let mut key: u8 = 0;
        while key < SPACE_COUNT
            invariant
                key <= SPACE_COUNT,
                powers.holds(self.units@),
                out@ == base_text(self.units@, key as int),
            decreases SPACE_COUNT - key,
        {
            let space = Space::at(key);
            if let Some(power) = powers.power_of(space, Ghost(self.units@)) {
                if !out.as_str().is_empty() {
                    out.push(' ');
                }
                out.push('[');
                out.append(space.name());
                out.push(']');
                out.push('^');
                push_number(&mut out, power, false);
                assert(out@ =~= base_text(self.units@, key + 1));
            }
            key += 1;
        }
        out
    }
}

impl ParseError {
    /// What the failure says.
    pub fn message(&self) -> (text: String)
        ensures
            text@ == failure_text(self@),
    {
        match self {
            ParseError::UnmatchedParenthesis => "Unmatched closing parenthesis".to_owned(),
            ParseError::UnclosedParenthesis => "Unmatched opening parenthesis".to_owned(),
            ParseError::InvalidToken(token) => {
                let mut out = "Invalid token: ".to_owned();
                out.append(token.as_str());
                out
            },
            ParseError::MissingOperator => "Missing operator in expression".to_owned(),
            ParseError::MissingOperand => "Missing operand in expression".to_owned(),
            ParseError::UnexpectedNumber => "Unexpected number in expression".to_owned(),
            ParseError::InvalidExponent => "Invalid exponent. (Expected number literal)".to_owned(),
            ParseError::ExponentOverflow => "Exponent out of range".to_owned(),
        }
    }
}

} // verus!
