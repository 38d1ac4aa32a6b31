//! From an expression tree to the list of its units, each with its net
//! power.

use super::{fits, Failure, Op, ParseError, Token, TokenView, Unit, POWER_LIMIT};
use vstd::prelude::*;

verus! {

/// Both lists one after the other, or the first failure.
pub open spec fn both(
    first: Result<Seq<Unit>, Failure>,
    second: Result<Seq<Unit>, Failure>,
) -> Result<Seq<Unit>, Failure> {
    match first {
        Err(e) => Err(e),
        Ok(a) => match second {
            Err(e) => Err(e),
            Ok(b) => Ok(a + b),
        },
    }
}

/// The units of a tree, from left to right, under the power `power`.
///
/// `^` multiplies the power by its exponent, which must be a number; `/`
/// negates it for the right-hand side; a unit takes the power times its
/// own and keeps its scale. A power beyond the limit is a failure, and so
/// is a number or an operator that stands where a unit is expected.
pub open spec fn expanded(token: TokenView, power: int) -> Result<Seq<Unit>, Failure>
    decreases token, 0nat,
{
    match token {
        TokenView::Tree(op, left, right) => match op {
            Op::Pow => match *right {
                TokenView::Num(exponent) => if fits(power * exponent) {
                    expanded(*left, power * exponent)
                } else {
                    Err(Failure::ExponentOverflow)
                },
                _ => Err(Failure::InvalidExponent),
            },
            Op::Div => both(expanded(*left, power), expanded(*right, -power)),
            Op::Mul => both(expanded(*left, power), expanded(*right, power)),
        },
        TokenView::Unit(unit) => if fits(power * unit.power) {
            Ok(
                seq![
                    Unit {
                        conversion: unit.conversion,
                        power: (power * unit.power) as i64,
                        sci_exponent: unit.sci_exponent,
                    },
                ],
            )
        } else {
            Err(Failure::ExponentOverflow)
        },
        TokenView::Group(tokens) => expanded_from(tokens, 0, power),
        TokenView::Num(_) => Err(Failure::UnexpectedNumber),
        TokenView::Op(_) => Err(Failure::MissingOperand),
    }
}

/// The units of the tokens from position `from` on, each expanded under
/// `power`: a group is a product of what it holds.
pub open spec fn expanded_from(tokens: Seq<TokenView>, from: int, power: int) -> Result<
    Seq<Unit>,
    Failure,
>
    decreases tokens, tokens.len() - from,
{
    if from < 0 || from >= tokens.len() {
        Ok(Seq::empty())
    } else {
        both(expanded(tokens[from], power), expanded_from(tokens, from + 1, power))
    }
}

/// Collects the units of a tree while it is walked.
pub struct Expander {
    units: Vec<Unit>,
}

impl Expander {
    /// Expands a tree into its units.
    pub fn expand(token: Token) -> (r: Result<Vec<Unit>, ParseError>)
        ensures
            match expanded(token@, 1) {
                Ok(units) => r is Ok && r->Ok_0@ == units,
                Err(e) => r is Err && r->Err_0@ == e,
            },
    {
        let mut exp = Self::new();
        match exp._expand(&token, 1) {
            Ok(()) => Ok(exp.units),
            Err(e) => Err(e),
        }
    }

    fn new() -> (exp: Self)
        ensures
            exp.units@ == Seq::<Unit>::empty(),
    {
        Self { units: Vec::new() }
    }

    fn _expand(&mut self, token: &Token, power: i64) -> (r: Result<(), ParseError>)
        requires
            fits(power as int),
        ensures
            match expanded(token@, power as int) {
                Ok(units) => r is Ok && final(self).units@ == old(self).units@ + units,
                Err(e) => r is Err && r->Err_0@ == e,
            },
        decreases token,
    {
        match token {
            Token::Tree(op, left, right) => match op {
                Op::Pow => {
                    let exponent: i64 = match **right {
                        Token::Num(n) => n,
                        _ => {
                            return Err(ParseError::InvalidExponent);
                        },
                    };
                    match power.checked_mul(exponent) {
                        Some(product) if product >= -POWER_LIMIT => self._expand(left, product),
                        _ => Err(ParseError::ExponentOverflow),
                    }
                },
                Op::Div => {
                    self._expand(left, power)?;
                    let ghost mid = self.units@;
                    let r = self._expand(right, -power);
                    proof {
                        if r is Ok {
                            let a = expanded(left@, power as int)->Ok_0;
                            let b = expanded(right@, -(power as int))->Ok_0;
                            assert(old(self).units@ + a + b =~= old(self).units@ + (a + b));
                        }
                    }
                    r
                },
                Op::Mul => {
                    self._expand(left, power)?;
                    let r = self._expand(right, power);
                    proof {
                        if r is Ok {
                            let a = expanded(left@, power as int)->Ok_0;
                            let b = expanded(right@, power as int)->Ok_0;
                            assert(old(self).units@ + a + b =~= old(self).units@ + (a + b));
                        }
                    }
                    r
                },
            },
            Token::Unit(unit) => {
                match power.checked_mul(unit.power) {
                    Some(product) if product >= -POWER_LIMIT => {
                        self.units.push(
                            Unit {
                                conversion: unit.conversion,
                                power: product,
                                sci_exponent: unit.sci_exponent,
                            },
                        );
                        Ok(())
                    },
                    _ => Err(ParseError::ExponentOverflow),
                }
            },
            Token::Group(group) => {
                let mut i: usize = 0;
                while i < group.len()
                    invariant
                        decreases_to!(*token => *group),
                        token@ == TokenView::Group(super::tokens_view(group@)),
                        fits(power as int),
                        i <= group.len(),
                        match expanded_from(super::tokens_view(group@), i as int, power as int) {
                            Ok(rest) => expanded(token@, power as int) is Ok && self.units@ + rest
                                == old(self).units@ + expanded(token@, power as int)->Ok_0,
                            Err(e) => expanded(token@, power as int) == Err::<Seq<Unit>, Failure>(e),
                        },
                    decreases group.len() - i,
                {
                    proof {
                        vstd::std_specs::vec::axiom_vec_index_decreases(*group, i as int);
                    }
                    let ghost before = self.units@;
                    self._expand(&group[i], power)?;
                    proof {
                        let tokens = super::tokens_view(group@);
                        let head = expanded(tokens[i as int], power as int);
                        let tail = expanded_from(tokens, i + 1, power as int);
                        if tail is Ok {
                            assert(before + head->Ok_0 + tail->Ok_0 =~= before + (head->Ok_0
                                + tail->Ok_0));
                        }
                    }
                    i += 1;
                }
                proof {
                    assert(self.units@ + Seq::<Unit>::empty() =~= self.units@);
                }
                Ok(())
            },
            Token::Num(..) => Err(ParseError::UnexpectedNumber),
            Token::Op(..) => Err(ParseError::MissingOperand),
        }
    }
}

} // verus!
