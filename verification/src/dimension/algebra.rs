//! How the operators of an expression act on the powers of the spaces:
//! a product adds them, a quotient subtracts them and an exponent
//! multiplies them.

use super::expander::{expanded, expanded_from};
use super::space_powers::{occurs, power_in, space_powers};
use super::{Op, TokenView, Unit};
use crate::units::Space;
use vstd::prelude::*;

verus! {

/// Whether `scaled` holds the units of `units` in the same order, each
/// with its power multiplied by `factor`.
pub open spec fn multiplied(units: Seq<Unit>, scaled: Seq<Unit>, factor: int) -> bool {
    &&& scaled.len() == units.len()
    &&& forall|i: int|
        0 <= i < units.len() ==> {
            &&& (#[trigger] scaled[i]).conversion == units[i].conversion
            &&& scaled[i].sci_exponent == units[i].sci_exponent
            &&& scaled[i].power == units[i].power * factor
        }
}

proof fn lemma_powers_of_both(a: Seq<Unit>, b: Seq<Unit>, space: Space)
    ensures
        power_in(a + b, space) == power_in(a, space) + power_in(b, space),
        occurs(a + b, space) == (occurs(a, space) || occurs(b, space)),
    decreases b.len(),
{
    if b.len() == 0 {
        assert(a + b =~= a);
    } else {
        lemma_powers_of_both(a, b.drop_last(), space);
        assert((a + b).drop_last() =~= a + b.drop_last());
        assert((a + b).last() == b.last());
    }
    if occurs(a + b, space) {
        let i = choose|i: int|
            0 <= i < (a + b).len() && !(#[trigger] (a + b)[i]).conversion.special && (a + b)[i].conversion.space
                == space;
        if i < a.len() {
            assert(a[i] == (a + b)[i]);
        } else {
            assert(b[i - a.len()] == (a + b)[i]);
        }
    }
    if occurs(a, space) {
        let i = choose|i: int|
            0 <= i < a.len() && !(#[trigger] a[i]).conversion.special && a[i].conversion.space == space;
        assert((a + b)[i] == a[i]);
    }
    if occurs(b, space) {
        let i = choose|i: int|
            0 <= i < b.len() && !(#[trigger] b[i]).conversion.special && b[i].conversion.space == space;
        assert((a + b)[a.len() + i] == b[i]);
    }
}

proof fn lemma_powers_of_multiplied(units: Seq<Unit>, scaled: Seq<Unit>, factor: int, space: Space)
    requires
        multiplied(units, scaled, factor),
    ensures
        power_in(scaled, space) == factor * power_in(units, space),
        occurs(scaled, space) == occurs(units, space),
    decreases units.len(),
{
    if units.len() > 0 {
        let front = units.drop_last();
        let scaled_front = scaled.drop_last();
        assert forall|i: int| 0 <= i < front.len() implies {
            &&& (#[trigger] scaled_front[i]).conversion == front[i].conversion
            &&& scaled_front[i].sci_exponent == front[i].sci_exponent
            &&& scaled_front[i].power == front[i].power * factor
        } by {
            assert(scaled_front[i] == scaled[i]);
        }
        lemma_powers_of_multiplied(front, scaled_front, factor, space);
        assert(scaled[scaled.len() - 1].power == units[units.len() - 1].power * factor);
        assert(factor * (power_in(front, space) + units.last().power) == factor * power_in(
            front,
            space,
        ) + units.last().power * factor) by (nonlinear_arith);
    }
    if occurs(units, space) {
        let i = choose|i: int|
            0 <= i < units.len() && !(#[trigger] units[i]).conversion.special && units[i].conversion.space
                == space;
        assert(scaled[i].conversion == units[i].conversion);
    }
    if occurs(scaled, space) {
        let i = choose|i: int|
            0 <= i < scaled.len() && !(#[trigger] scaled[i]).conversion.special && scaled[i].conversion.space
                == space;
        assert(scaled[i].conversion == units[i].conversion);
    }
}

proof fn lemma_multiplied_both(a: Seq<Unit>, sa: Seq<Unit>, b: Seq<Unit>, sb: Seq<Unit>, factor: int)
    requires
        multiplied(a, sa, factor),
        multiplied(b, sb, factor),
    ensures
        multiplied(a + b, sa + sb, factor),
{
    assert forall|i: int| 0 <= i < (a + b).len() implies {
        &&& (#[trigger] (sa + sb)[i]).conversion == (a + b)[i].conversion
        &&& (sa + sb)[i].sci_exponent == (a + b)[i].sci_exponent
        &&& (sa + sb)[i].power == (a + b)[i].power * factor
    } by {
        if i < a.len() {
            assert((sa + sb)[i] == sa[i]);
        } else {
            assert((sa + sb)[i] == sb[i - a.len()]);
        }
    }
}

/// Under a power multiplied by `factor`, a tree expands to the same units
/// with their powers multiplied by `factor`, where both expansions succeed.
proof fn lemma_expanded_multiplied(token: TokenView, power: int, factor: int)
    requires
        expanded(token, power) is Ok,
        expanded(token, power * factor) is Ok,
    ensures
        multiplied(expanded(token, power)->Ok_0, expanded(token, power * factor)->Ok_0, factor),
    decreases token, 0nat,
{
    match token {
        TokenView::Tree(op, left, right) => match op {
            Op::Pow => match *right {
                TokenView::Num(exponent) => {
                    assert((power * exponent) * factor == (power * factor) * exponent)
                        by (nonlinear_arith);
                    lemma_expanded_multiplied(*left, power * exponent, factor);
                },
                _ => {},
            },
            Op::Div => {
                assert((-power) * factor == -(power * factor)) by (nonlinear_arith);
                lemma_expanded_multiplied(*left, power, factor);
                lemma_expanded_multiplied(*right, -power, factor);
                lemma_multiplied_both(
                    expanded(*left, power)->Ok_0,
                    expanded(*left, power * factor)->Ok_0,
                    expanded(*right, -power)->Ok_0,
                    expanded(*right, -(power * factor))->Ok_0,
                    factor,
                );
            },
            Op::Mul => {
                lemma_expanded_multiplied(*left, power, factor);
                lemma_expanded_multiplied(*right, power, factor);
                lemma_multiplied_both(
                    expanded(*left, power)->Ok_0,
                    expanded(*left, power * factor)->Ok_0,
                    expanded(*right, power)->Ok_0,
                    expanded(*right, power * factor)->Ok_0,
                    factor,
                );
            },
        },
        TokenView::Unit(unit) => {
            assert((power * unit.power) * factor == (power * factor) * unit.power)
                by (nonlinear_arith);
        },
        TokenView::Group(tokens) => {
            lemma_expanded_from_multiplied(tokens, 0, power, factor);
        },
        _ => {},
    }
}

proof fn lemma_expanded_from_multiplied(tokens: Seq<TokenView>, from: int, power: int, factor: int)
    requires
        expanded_from(tokens, from, power) is Ok,
        expanded_from(tokens, from, power * factor) is Ok,
    ensures
        multiplied(
            expanded_from(tokens, from, power)->Ok_0,
            expanded_from(tokens, from, power * factor)->Ok_0,
            factor,
        ),
    decreases tokens, tokens.len() - from,
{
    if 0 <= from < tokens.len() {
        lemma_expanded_multiplied(tokens[from], power, factor);
        lemma_expanded_from_multiplied(tokens, from + 1, power, factor);
        lemma_multiplied_both(
            expanded(tokens[from], power)->Ok_0,
            expanded(tokens[from], power * factor)->Ok_0,
            expanded_from(tokens, from + 1, power)->Ok_0,
            expanded_from(tokens, from + 1, power * factor)->Ok_0,
            factor,
        );
    }
}

/// Dividing by a product is dividing by each factor in turn: `a/(b*c)` and
/// `a/b/c` expand to the same units in the same order, or fail alike.
pub proof fn division_by_a_product(a: TokenView, b: TokenView, c: TokenView, power: int)
    ensures
        expanded(
            TokenView::Tree(
                Op::Div,
                Box::new(a),
                Box::new(TokenView::Tree(Op::Mul, Box::new(b), Box::new(c))),
            ),
            power,
        ) == expanded(
            TokenView::Tree(
                Op::Div,
                Box::new(TokenView::Tree(Op::Div, Box::new(a), Box::new(b))),
                Box::new(c),
            ),
            power,
        ),
{
    reveal_with_fuel(expanded, 3);
    let ea = expanded(a, power);
    let eb = expanded(b, -power);
    let ec = expanded(c, -power);
    if ea is Ok && eb is Ok && ec is Ok {
        assert(ea->Ok_0 + (eb->Ok_0 + ec->Ok_0) =~= (ea->Ok_0 + eb->Ok_0) + ec->Ok_0);
    }
}

/// A product adds the powers of its two sides, space by space, and a
/// space occurs in it where it occurs in a side.
pub proof fn product_adds_powers(a: TokenView, b: TokenView, power: int, space: Space)
    requires
        expanded(TokenView::Tree(Op::Mul, Box::new(a), Box::new(b)), power) is Ok,
    ensures
        expanded(a, power) is Ok,
        expanded(b, power) is Ok,
        power_in(
            expanded(TokenView::Tree(Op::Mul, Box::new(a), Box::new(b)), power)->Ok_0,
            space,
        ) == power_in(expanded(a, power)->Ok_0, space) + power_in(expanded(b, power)->Ok_0, space),
        occurs(
            expanded(TokenView::Tree(Op::Mul, Box::new(a), Box::new(b)), power)->Ok_0,
            space,
        ) == (occurs(expanded(a, power)->Ok_0, space) || occurs(expanded(b, power)->Ok_0, space)),
{
    lemma_powers_of_both(expanded(a, power)->Ok_0, expanded(b, power)->Ok_0, space);
}

/// A quotient subtracts the powers of its right side from those of its
/// left side, space by space, where the right side expands by itself too.
pub proof fn quotient_subtracts_powers(a: TokenView, b: TokenView, power: int, space: Space)
    requires
        expanded(TokenView::Tree(Op::Div, Box::new(a), Box::new(b)), power) is Ok,
        expanded(b, power) is Ok,
    ensures
        expanded(a, power) is Ok,
        power_in(
            expanded(TokenView::Tree(Op::Div, Box::new(a), Box::new(b)), power)->Ok_0,
            space,
        ) == power_in(expanded(a, power)->Ok_0, space) - power_in(expanded(b, power)->Ok_0, space),
        occurs(
            expanded(TokenView::Tree(Op::Div, Box::new(a), Box::new(b)), power)->Ok_0,
            space,
        ) == (occurs(expanded(a, power)->Ok_0, space) || occurs(expanded(b, power)->Ok_0, space)),
{
    assert(power * (-1) == -power) by (nonlinear_arith);
    lemma_expanded_multiplied(b, power, -1);
    lemma_powers_of_multiplied(expanded(b, power)->Ok_0, expanded(b, -power)->Ok_0, -1, space);
    lemma_powers_of_both(expanded(a, power)->Ok_0, expanded(b, -power)->Ok_0, space);
}

/// An exponent multiplies the powers of what it raises, space by space,
/// where that expands by itself too; the same spaces occur.
pub proof fn exponent_multiplies_powers(a: TokenView, exponent: int, power: int, space: Space)
    requires
        expanded(
            TokenView::Tree(Op::Pow, Box::new(a), Box::new(TokenView::Num(exponent))),
            power,
        ) is Ok,
        expanded(a, power) is Ok,
    ensures
        power_in(
            expanded(
                TokenView::Tree(Op::Pow, Box::new(a), Box::new(TokenView::Num(exponent))),
                power,
            )->Ok_0,
            space,
        ) == exponent * power_in(expanded(a, power)->Ok_0, space),
        occurs(
            expanded(
                TokenView::Tree(Op::Pow, Box::new(a), Box::new(TokenView::Num(exponent))),
                power,
            )->Ok_0,
            space,
        ) == occurs(expanded(a, power)->Ok_0, space),
{
    lemma_expanded_multiplied(a, power, exponent);
    lemma_powers_of_multiplied(
        expanded(a, power)->Ok_0,
        expanded(a, power * exponent)->Ok_0,
        exponent,
        space,
    );
}

/// A square is a product of a thing with itself: `a^2` and `a*a` have the
/// same space powers, where both expand.
pub proof fn square_is_a_product(a: TokenView, power: int)
    requires
        expanded(TokenView::Tree(Op::Pow, Box::new(a), Box::new(TokenView::Num(2))), power) is Ok,
        expanded(TokenView::Tree(Op::Mul, Box::new(a), Box::new(a)), power) is Ok,
    ensures
        space_powers(
            expanded(
                TokenView::Tree(Op::Pow, Box::new(a), Box::new(TokenView::Num(2))),
                power,
            )->Ok_0,
        ) == space_powers(
            expanded(TokenView::Tree(Op::Mul, Box::new(a), Box::new(a)), power)->Ok_0,
        ),
{
    let squared = expanded(
        TokenView::Tree(Op::Pow, Box::new(a), Box::new(TokenView::Num(2))),
        power,
    )->Ok_0;
    let product = expanded(TokenView::Tree(Op::Mul, Box::new(a), Box::new(a)), power)->Ok_0;
    assert forall|space: Space|
        occurs(squared, space) == occurs(product, space) && power_in(squared, space) == power_in(
            product,
            space,
        ) by {
        exponent_multiplies_powers(a, 2, power, space);
        product_adds_powers(a, a, power, space);
    }
    assert(space_powers(squared) =~= space_powers(product));
}

} // verus!
