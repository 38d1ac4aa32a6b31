//! Tokens, expanded units and the dimensions of a unit expression.

use crate::dimension::expander::{expanded, Expander};
use crate::dimension::simplify::{lemma_merged_totals, position_of, simplified};
use crate::dimension::space_powers::{
    bounded, lemma_each_within_total, lemma_totals_grow, space_powers, total_power, total_scale,
    SpacePowers,
};
use crate::dimension::tokenizer::{tokenized, Tokenizer};
use crate::dimension::tree::{treeified, Treeifyer};
use crate::units::{Conversion, TableView, UnitTable};
use vstd::prelude::*;
use vstd::std_specs::cmp::PartialEqSpecImpl;

pub mod algebra;
pub mod display;
pub mod expander;
pub mod simplify;
pub mod space_powers;
pub mod tokenizer;
pub mod tree;

verus! {

/// One occurrence of a unit: its definition, the power it is raised to and
/// the power of ten it is scaled by (`kilo` is 3).
#[derive(Debug, Clone, Copy, PartialEq)]
pub struct Unit {
    pub conversion: Conversion,
    pub power: i64,
    /// * 10^exponent
    pub sci_exponent: i64,
}

/// An operator of a unit expression.
#[derive(Debug, Clone, Copy, PartialEq, Eq, Structural)]
pub enum Op {
    Mul,
    Div,
    Pow,
}

/// A piece of a unit expression.
///
/// The tokenizer produces units, numbers, operators and groups; the
/// treeifier turns operators and their operands into trees and groups into
/// what they hold.
#[derive(Debug, PartialEq)]
pub enum Token {
    Unit(Unit),
    Num(i64),
    Op(Op),
    Group(Vec<Token>),
    Tree(Op, Box<Token>, Box<Token>),
}

/// The mathematical value of a [`Token`].
pub enum TokenView {
    Unit(Unit),
    Num(int),
    Op(Op),
    Group(Seq<TokenView>),
    Tree(Op, Box<TokenView>, Box<TokenView>),
}

/// Why a unit expression is refused.
#[derive(Debug, PartialEq, Eq)]
pub enum ParseError {
    /// A `)` closes nothing.
    UnmatchedParenthesis,
    /// A `(` is never closed.
    UnclosedParenthesis,
    /// The text is neither a number nor the name of a unit.
    InvalidToken(String),
    /// Two operands stand side by side.
    MissingOperator,
    /// An operator lacks an operand, or the expression is empty.
    MissingOperand,
    /// A number stands where a unit is expected.
    UnexpectedNumber,
    /// The right-hand side of `^` is not a number.
    InvalidExponent,
    /// A power, or the sum of the powers, is beyond 64 bits.
    ExponentOverflow,
}

/// The mathematical value of a [`ParseError`].
pub enum Failure {
    UnmatchedParenthesis,
    UnclosedParenthesis,
    InvalidToken(Seq<char>),
    MissingOperator,
    MissingOperand,
    UnexpectedNumber,
    InvalidExponent,
    ExponentOverflow,
}

/// The dimensions of a unit expression: its units in the order in which
/// the expression names them, each with its net power.
///
/// The magnitudes of the powers sum to at most [`POWER_LIMIT`], and so do
/// those of the scale exponents.
#[derive(Debug)]
pub struct Dimensions {
    units: Vec<Unit>,
}

/// Which way a unit's formula is applied.
#[derive(Debug, Clone, Copy, PartialEq, Eq, Structural)]
pub enum Direction {
    /// From the unit to the base unit of its space.
    ToBase,
    /// From the base unit of its space to the unit.
    FromBase,
}

/// One step of a conversion: apply the formula of `conversion` `times`
/// times in the given direction, then multiply by ten to the power of
/// `scale`.
#[derive(Debug, Clone, Copy, PartialEq)]
pub struct Step {
    pub conversion: Conversion,
    pub direction: Direction,
    pub times: u64,
    pub scale: i64,
}

/// The largest magnitude of a power: `i64::MAX`.
pub const POWER_LIMIT: i64 = 0x7fff_ffff_ffff_ffff;

/// Whether a power is within the limit, in both directions.
pub open spec fn fits(v: int) -> bool {
    -POWER_LIMIT <= v <= POWER_LIMIT
}

/// The value of a token: its groups as sequences, its numbers as
/// integers.
pub open spec fn token_view(t: Token) -> TokenView
    decreases t,
{
    match t {
        Token::Unit(u) => TokenView::Unit(u),
        Token::Num(n) => TokenView::Num(n as int),
        Token::Op(op) => TokenView::Op(op),
        Token::Group(v) => TokenView::Group(tokens_view(v@)),
        Token::Tree(op, l, r) => TokenView::Tree(
            op,
            Box::new(token_view(*l)),
            Box::new(token_view(*r)),
        ),
    }
}

/// The values of a sequence of tokens.
pub open spec fn tokens_view(v: Seq<Token>) -> Seq<TokenView>
    decreases v,
{
    Seq::new(
        v.len(),
        |i: int|
            if 0 <= i < v.len() {
                token_view(v[i])
            } else {
                TokenView::Num(0)
            },
    )
}

impl View for Token {
    type V = TokenView;

    open spec fn view(&self) -> TokenView {
        token_view(*self)
    }
}

impl View for ParseError {
    type V = Failure;

    open spec fn view(&self) -> Failure {
        match self {
            ParseError::UnmatchedParenthesis => Failure::UnmatchedParenthesis,
            ParseError::UnclosedParenthesis => Failure::UnclosedParenthesis,
            ParseError::InvalidToken(text) => Failure::InvalidToken(text@),
            ParseError::MissingOperator => Failure::MissingOperator,
            ParseError::MissingOperand => Failure::MissingOperand,
            ParseError::UnexpectedNumber => Failure::UnexpectedNumber,
            ParseError::InvalidExponent => Failure::InvalidExponent,
            ParseError::ExponentOverflow => Failure::ExponentOverflow,
        }
    }
}

impl Unit {
    /// The unit of that definition, power and scale.
    pub fn new(conversion: Conversion, power: i64, sci_exponent: i64) -> (unit: Self)
        ensures
            unit == (Unit { conversion, power, sci_exponent }),
    {
        Self { conversion, power, sci_exponent }
    }

    /// A special unit only carries a constant factor and takes no part in
    /// the comparison of dimensions.
    pub fn is_special(&self) -> (special: bool)
        ensures
            special == self.conversion.special,
    {
        self.conversion.special
    }
}

/// The step that takes a value out of a unit of the source: towards the
/// base unit for a power that is not negative, away from it for a negative
/// one, as often as the power says, the scale following the sign of the
/// power.
pub open spec fn step_out(unit: Unit) -> Step {
    if unit.power >= 0 {
        Step {
            conversion: unit.conversion,
            direction: Direction::ToBase,
            times: unit.power as u64,
            scale: unit.sci_exponent,
        }
    } else {
        Step {
            conversion: unit.conversion,
            direction: Direction::FromBase,
            times: (-unit.power) as u64,
            scale: (-unit.sci_exponent) as i64,
        }
    }
}

/// The step that brings a value into a unit of the target: the reverse of
/// [`step_out`] in direction and in scale.
pub open spec fn step_in(unit: Unit) -> Step {
    if unit.power >= 0 {
        Step {
            conversion: unit.conversion,
            direction: Direction::FromBase,
            times: unit.power as u64,
            scale: (-unit.sci_exponent) as i64,
        }
    } else {
        Step {
            conversion: unit.conversion,
            direction: Direction::ToBase,
            times: (-unit.power) as u64,
            scale: unit.sci_exponent,
        }
    }
}

/// The steps of a conversion: out of each unit of the source in turn, then
/// into each unit of the target in turn.
pub open spec fn conversion_steps(from: Seq<Unit>, to: Seq<Unit>) -> Seq<Step> {
    from.map_values(|unit: Unit| step_out(unit)) + to.map_values(|unit: Unit| step_in(unit))
}

/// The units that a text denotes: its tokens, their tree, and the units of
/// the tree under power 1, where these stay within the limit. The first
/// stage that fails decides the failure.
pub open spec fn parsed(table: TableView, text: Seq<char>) -> Result<Seq<Unit>, Failure> {
    match tokenized(table, text) {
        Err(e) => Err(e),
        Ok(tokens) => match treeified(tokens) {
            Err(e) => Err(e),
            Ok(tree) => match expanded(tree, 1) {
                Err(e) => Err(e),
                Ok(units) => if bounded(units) {
                    Ok(units)
                } else {
                    Err(Failure::ExponentOverflow)
                },
            },
        },
    }
}

impl View for Dimensions {
    type V = Seq<Unit>;

    closed spec fn view(&self) -> Seq<Unit> {
        self.units@
    }
}

impl Dimensions {
    #[verifier::type_invariant]
    spec fn within_limit(&self) -> bool {
        bounded(self.units@)
    }

    /// The dimensions that hold the given units, where their powers and
    /// their scale exponents are within the limit.
    pub fn new(units: Vec<Unit>) -> (r: Result<Dimensions, ParseError>)
        ensures
            bounded(units@) ==> r is Ok && r->Ok_0@ == units@,
            !bounded(units@) ==> r is Err && r->Err_0@ == Failure::ExponentOverflow,
    {
        let mut powers: i64 = 0;
        let mut scales: i64 = 0;
        let mut i: usize = 0;
        assert(units@.take(0) =~= Seq::<Unit>::empty());
        while i < units.len()
            invariant
                i <= units.len(),
                powers == total_power(units@.take(i as int)),
                scales == total_scale(units@.take(i as int)),
            decreases units.len() - i,
        {
            let unit = units[i];
            proof {
                assert(units@.take(i + 1).drop_last() =~= units@.take(i as int));
                lemma_totals_grow(units@, i + 1);
                lemma_totals_grow(units@, i as int);
            }
            if unit.power < -POWER_LIMIT || unit.sci_exponent < -POWER_LIMIT {
                return Err(ParseError::ExponentOverflow);
            }
            let power: i64 = if unit.power < 0 {
                -unit.power
            } else {
                unit.power
            };
            let scale: i64 = if unit.sci_exponent < 0 {
                -unit.sci_exponent
            } else {
                unit.sci_exponent
            };
            powers = match powers.checked_add(power) {
                Some(sum) => sum,
                None => {
                    return Err(ParseError::ExponentOverflow);
                },
            };
            scales = match scales.checked_add(scale) {
                Some(sum) => sum,
                None => {
                    return Err(ParseError::ExponentOverflow);
                },
            };
            i += 1;
        }
        assert(units@.take(units.len() as int) =~= units@);
        Ok(Dimensions { units })
    }

    /// Reads the dimensions of a unit expression, with the names that
    /// `table` knows.
    pub fn parse(text: &str, table: &UnitTable) -> (r: Result<Dimensions, ParseError>)
        ensures
            match parsed(table@, text@) {
                Ok(units) => r is Ok && r->Ok_0@ == units,
                Err(e) => r is Err && r->Err_0@ == e,
            },
    {
        let tokens = Tokenizer::tokenize_with(text, table)?;
        let tree = Treeifyer::treeify(tokens)?;
        let units = Expander::expand(tree)?;
        Dimensions::new(units)
    }

    /// The units, in order.
    pub fn units(&self) -> (units: &Vec<Unit>)
        ensures
            units@ == self@,
    {
        &self.units
    }

    /// Whether both dimensions hold the same spaces with the same powers,
    /// special units left out.
    pub fn equals(&self, other: &Dimensions) -> (same: bool)
        ensures
            same == (space_powers(self@) == space_powers(other@)),
    {
        proof {
            use_type_invariant(self);
            use_type_invariant(other);
        }
        let mine = SpacePowers::of(&self.units);
        let theirs = SpacePowers::of(&other.units);
        mine.agrees(&theirs, Ghost(self.units@), Ghost(other.units@))
    }

    /// The steps that convert a value in these dimensions into one in
    /// `other`. Whether the two agree is not asked here: the caller compares
    /// them first.
    pub fn convert(&self, other: &Dimensions) -> (steps: Vec<Step>)
        ensures
            steps@ == conversion_steps(self@, other@),
    {
        proof {
            use_type_invariant(self);
            use_type_invariant(other);
        }
        let mut steps: Vec<Step> = Vec::new();
        let mut i: usize = 0;
        while i < self.units.len()
            invariant
                i <= self.units.len(),
                bounded(self.units@),
                steps@ == self.units@.take(i as int).map_values(|unit: Unit| step_out(unit)),
            decreases self.units.len() - i,
        {
            let unit = self.units[i];
            proof {
                lemma_each_within_total(self.units@, i as int);
            }
            let step = if unit.power >= 0 {
                Step {
                    conversion: unit.conversion,
                    direction: Direction::ToBase,
                    times: unit.power as u64,
                    scale: unit.sci_exponent,
                }
            } else {
                Step {
                    conversion: unit.conversion,
                    direction: Direction::FromBase,
                    times: (-unit.power) as u64,
                    scale: -unit.sci_exponent,
                }
            };
            steps.push(step);
            assert(steps@ =~= self.units@.take(i + 1).map_values(|unit: Unit| step_out(unit)));
            i += 1;
        }
        assert(self.units@.take(self.units.len() as int) =~= self.units@);
        let ghost first = steps@;
        let mut j: usize = 0;
        while j < other.units.len()
            invariant
                j <= other.units.len(),
                bounded(other.units@),
                steps@ == first + other.units@.take(j as int).map_values(|unit: Unit| step_in(unit)),
            decreases other.units.len() - j,
        {
            let unit = other.units[j];
            proof {
                lemma_each_within_total(other.units@, j as int);
            }
            let step = if unit.power >= 0 {
                Step {
                    conversion: unit.conversion,
                    direction: Direction::FromBase,
                    times: unit.power as u64,
                    scale: -unit.sci_exponent,
                }
            } else {
                Step {
                    conversion: unit.conversion,
                    direction: Direction::ToBase,
                    times: (-unit.power) as u64,
                    scale: unit.sci_exponent,
                }
            };
            steps.push(step);
            assert(steps@ =~= first + other.units@.take(j + 1).map_values(
                |unit: Unit| step_in(unit),
            ));
            j += 1;
        }
        assert(other.units@.take(other.units.len() as int) =~= other.units@);
        steps
    }

    /// One unit for each space: the units of a space merged into the first
    /// of them, their powers and scale exponents summed.
    pub fn simplify(&self) -> (simple: Self)
        ensures
            simple@ == simplified(self@),
    {
        proof {
            use_type_invariant(self);
        }
        let mut new_units: Vec<Unit> = Vec::new();
        let mut i: usize = 0;
        assert(self.units@.take(0) =~= Seq::<Unit>::empty());
        while i < self.units.len()
            invariant
                i <= self.units.len(),
                bounded(self.units@),
                new_units@ == simplified(self.units@.take(i as int)),
                total_power(new_units@) <= total_power(self.units@.take(i as int)),
                total_scale(new_units@) <= total_scale(self.units@.take(i as int)),
            decreases self.units.len() - i,
        {
            let unit = self.units[i];
            proof {
                assert(self.units@.take(i + 1).drop_last() =~= self.units@.take(i as int));
                lemma_totals_grow(self.units@, i + 1);
                lemma_merged_totals(new_units@, unit);
            }
            let mut j: usize = 0;
            let mut found: Option<usize> = None;
            while j < new_units.len() && found.is_none()
                invariant
                    j <= new_units.len(),
                    position_of(new_units@, unit.conversion.space, 0) == position_of(
                        new_units@,
                        unit.conversion.space,
                        j as int,
                    ),
                    found is Some ==> position_of(new_units@, unit.conversion.space, 0) == Some(
                        found->Some_0 as int,
                    ),
                decreases new_units.len() - j + (if found is None { 1int } else { 0int }),
            {
                if new_units[j].conversion.space == unit.conversion.space {
                    found = Some(j);
                } else {
                    j += 1;
                }
            }
            match found {
                Some(j) => {
                    let into = new_units[j];
                    new_units.set(
                        j,
                        Unit {
                            conversion: into.conversion,
                            power: into.power + unit.power,
                            sci_exponent: into.sci_exponent + unit.sci_exponent,
                        },
                    );
                },
                None => {
                    new_units.push(unit);
                },
            }
            i += 1;
        }
        assert(self.units@.take(self.units.len() as int) =~= self.units@);
        Dimensions { units: new_units }
    }
}

impl core::str::FromStr for Dimensions {
    type Err = ParseError;

    /// Reads the dimensions of a unit expression with the names of the
    /// standard table.
    fn from_str(s: &str) -> (r: Result<Self, Self::Err>)
        ensures
            match parsed(UnitTable::standard_spec(), s@) {
                Ok(units) => r is Ok && r->Ok_0@ == units,
                Err(e) => r is Err && r->Err_0@ == e,
            },
    {
        let table = UnitTable::standard();
        Dimensions::parse(s, &table)
    }
}

impl PartialEq for Dimensions {
    /// Dimensions are equal where [`Dimensions::equals`] says so: the
    /// order of the units and the units themselves do not matter, only the
    /// powers of the spaces.
    fn eq(&self, other: &Self) -> (same: bool) {
        self.equals(other)
    }
}

impl PartialEqSpecImpl for Dimensions {
    open spec fn obeys_eq_spec() -> bool {
        true
    }

    open spec fn eq_spec(&self, other: &Self) -> bool {
        space_powers(self@) == space_powers(other@)
    }
}

impl Default for Op {
    fn default() -> (op: Op)
        ensures
            op == Op::Mul,
    {
        Op::Mul
    }
}

impl Op {
    /// How tightly the operator binds: the higher, the tighter.
    pub open spec fn precedence_spec(&self) -> u8 {
        match self {
            Op::Mul => 2,
            Op::Div => 2,
            Op::Pow => 3,
        }
    }

    /// How tightly the operator binds: 2 for `*` and `/`, 3 for `^`.
    #[verifier::when_used_as_spec(precedence_spec)]
    pub fn precedence(&self) -> (level: u8)
        ensures
            level == self.precedence_spec(),
    {
        match self {
            Op::Mul => 2,
            Op::Div => 2,
            Op::Pow => 3,
        }
    }
}

impl Token {
    /// A copy of the token.
    pub fn duplicate(&self) -> (copy: Token)
        ensures
            copy@ == self@,
        decreases self,
    {
        match self {
            Token::Unit(u) => Token::Unit(*u),
            Token::Num(n) => Token::Num(*n),
            Token::Op(op) => Token::Op(*op),
            Token::Group(v) => {
                let mut out: Vec<Token> = Vec::new();
                let mut i: usize = 0;
                while i < v.len()
                    invariant
                        decreases_to!(*self => *v),
                        i <= v.len(),
                        out@.len() == i,
                        forall|j: int| 0 <= j < i ==> out@[j]@ == v@[j]@,
                    decreases v.len() - i,
                {
                    proof {
                        vstd::std_specs::vec::axiom_vec_index_decreases(*v, i as int);
                    }
                    let t = v[i].duplicate();
                    out.push(t);
                    i += 1;
                }
                assert(tokens_view(out@) =~= tokens_view(v@));
                Token::Group(out)
            },
            Token::Tree(op, l, r) => Token::Tree(
                *op,
                Box::new(l.duplicate()),
                Box::new(r.duplicate()),
            ),
        }
    }
}

impl Clone for Token {
    fn clone(&self) -> (copy: Token)
        ensures
            copy@ == self@,
    {
        self.duplicate()
    }
}

} // verus!
