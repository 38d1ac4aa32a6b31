//! From a flat sequence of tokens to an expression tree, by precedence.

use super::{tokens_view, Failure, Op, ParseError, Token, TokenView};
use vstd::prelude::*;

verus! {

/// How many operators of each precedence level still wait to be reduced,
/// kept in a `hashbrown::HashMap` under the level. The map is opaque to the
/// verifier: what it holds goes by the name [`levels`], and only the three
/// methods below touch it.
#[verifier::external_body]
pub struct OpCounts {
    inner: hashbrown::HashMap<u8, u64>,
}

/// What the map holds: the count under each level.
pub uninterp spec fn levels(counts: OpCounts) -> Map<u8, u64>;

impl OpCounts {
    /// `hashbrown::HashMap::new`. Taken on trust: the new map holds
    /// nothing.
    #[verifier::external_body]
    fn new() -> (counts: OpCounts)
        ensures
            levels(counts) == (Map::<u8, u64>::empty()),
    {
        OpCounts { inner: hashbrown::HashMap::new() }
    }

    /// `hashbrown::HashMap::get`. Taken on trust: it gives the value that
    /// the map holds under the key, and nothing where it holds none.
    #[verifier::external_body]
    fn get(&self, level: u8) -> (count: Option<u64>)
        ensures
            count == (if levels(*self).dom().contains(level) {
                Some(levels(*self)[level])
            } else {
                None
            }),
    {
        self.inner.get(&level).copied()
    }

    /// `hashbrown::HashMap::insert`. Taken on trust: afterwards the map
    /// holds the value under the key and, under every other key, what it
    /// held before.
    #[verifier::external_body]
    fn insert(&mut self, level: u8, count: u64)
        ensures
            levels(*final(self)) == levels(*old(self)).insert(level, count),
    {
        self.inner.insert(level, count);
    }
}

/// What a token stands for as an operand: a group stands for the tree of
/// what it holds, every other token for itself.
pub open spec fn operand(token: TokenView) -> Result<TokenView, Failure>
    decreases token, 0nat,
{
    match token {
        TokenView::Group(inner) => treeified(inner),
        _ => Ok(token),
    }
}

/// The operands of a sequence of tokens, position by position.
pub open spec fn operands(tokens: Seq<TokenView>) -> Seq<Result<TokenView, Failure>>
    decreases tokens, 0nat,
{
    Seq::new(
        tokens.len(),
        |i: int|
            if 0 <= i < tokens.len() {
                operand(tokens[i])
            } else {
                Err(Failure::MissingOperand)
            },
    )
}

/// How many of the tokens are operators of the level.
pub open spec fn operators_at(tokens: Seq<TokenView>, level: u8) -> nat
    decreases tokens.len(),
{
    if tokens.len() == 0 {
        0
    } else {
        operators_at(tokens.drop_last(), level) + (match tokens.last() {
            TokenView::Op(op) if op.precedence() == level => 1nat,
            _ => 0nat,
        })
    }
}

/// For each level that has operators among the tokens, their number.
pub open spec fn live_counts(tokens: Seq<TokenView>) -> Map<u8, u64> {
    Map::new(
        |level: u8| operators_at(tokens, level) > 0,
        |level: u8| operators_at(tokens, level) as u64,
    )
}

/// Whether the level still has operators to reduce.
pub open spec fn live(counts: Map<u8, u64>, level: u8) -> bool {
    counts.dom().contains(level) && counts[level] > 0
}

/// The highest level that still has operators to reduce. The levels are
/// those of [`Op::precedence`].
pub open spec fn top_level(counts: Map<u8, u64>) -> Option<u8> {
    if live(counts, 3) {
        Some(3u8)
    } else if live(counts, 2) {
        Some(2u8)
    } else {
        None
    }
}

/// Whether the operand at a position is an operator that is due: one of
/// the highest level that still has operators to reduce.
pub open spec fn due(item: Result<TokenView, Failure>, counts: Map<u8, u64>) -> bool {
    match item {
        Ok(TokenView::Op(op)) => match top_level(counts) {
            Some(top) => op.precedence() >= top,
            None => false,
        },
        _ => false,
    }
}

/// The position of the leftmost operator that is due, from `from` on.
pub open spec fn first_due(items: Seq<Result<TokenView, Failure>>, counts: Map<u8, u64>, from: int) -> Option<int>
    decreases items.len() - from,
{
    if from < 0 || from >= items.len() {
        None
    } else if due(items[from], counts) {
        Some(from)
    } else {
        first_due(items, counts, from + 1)
    }
}

/// The counts after one operator of the level has been reduced.
pub open spec fn one_less(counts: Map<u8, u64>, level: u8) -> Map<u8, u64> {
    if live(counts, level) {
        counts.insert(level, (counts[level] - 1) as u64)
    } else {
        counts
    }
}

/// The tree that the operands reduce to: again and again the leftmost
/// operator that is due takes its two neighbours as operands and the three
/// become one tree, until one operand is left.
///
/// An operator at either end lacks an operand; more than one operand and no
/// operator due means that an operator is missing. A neighbour that failed
/// to become a tree fails the whole, the left one first.
pub open spec fn reduced(items: Seq<Result<TokenView, Failure>>, counts: Map<u8, u64>) -> Result<
    TokenView,
    Failure,
>
    decreases items.len(),
{
    if items.len() == 0 {
        Err(Failure::MissingOperand)
    } else if items.len() == 1 {
        items[0]
    } else {
        match first_due(items, counts, 0) {
            None => Err(Failure::MissingOperator),
            Some(i) => if i <= 0 || i + 1 >= items.len() {
                Err(Failure::MissingOperand)
            } else {
                match (items[i], items[i - 1], items[i + 1]) {
                    (Ok(TokenView::Op(op)), Ok(left), Ok(right)) => reduced(
                        items.subrange(0, i - 1).push(
                            Ok(TokenView::Tree(op, Box::new(left), Box::new(right))),
                        ) + items.subrange(i + 2, items.len() as int),
                        one_less(counts, op.precedence()),
                    ),
                    (_, Err(e), _) => Err(e),
                    (_, _, Err(e)) => Err(e),
                    _ => Err(Failure::MissingOperator),
                }
            },
        }
    }
}

/// The tree of a sequence of tokens.
///
/// A single token is its own tree if it is a unit or a tree, and the tree
/// of what it holds if it is a group; a lone number or operator is
/// refused. Several tokens reduce by precedence, see [`reduced`].
pub open spec fn treeified(tokens: Seq<TokenView>) -> Result<TokenView, Failure>
    decreases tokens, 1nat,
{
    if tokens.len() == 1 {
        match tokens[0] {
            TokenView::Group(inner) => treeified(inner),
            TokenView::Unit(unit) => Ok(tokens[0]),
            TokenView::Tree(op, left, right) => Ok(tokens[0]),
            TokenView::Num(_) => Err(Failure::UnexpectedNumber),
            TokenView::Op(_) => Err(Failure::MissingOperand),
        }
    } else {
        reduced(operands(tokens), live_counts(tokens))
    }
}

proof fn lemma_reduced_is_no_operator(items: Seq<Result<TokenView, Failure>>, counts: Map<u8, u64>)
    requires
        items.len() != 1,
    ensures
        !(reduced(items, counts) matches Ok(TokenView::Op(_))),
    decreases items.len(),
{
    if items.len() >= 2 {
        match first_due(items, counts, 0) {
            None => {},
            Some(i) => {
                if 0 < i && i + 1 < items.len() {
                    match (items[i], items[i - 1], items[i + 1]) {
                        (Ok(TokenView::Op(op)), Ok(left), Ok(right)) => {
                            let next = items.subrange(0, i - 1).push(
                                Ok(TokenView::Tree(op, Box::new(left), Box::new(right))),
                            ) + items.subrange(i + 2, items.len() as int);
                            if next.len() != 1 {
                                lemma_reduced_is_no_operator(next, one_less(counts, op.precedence()));
                            } else {
                                assert(next[0] == Ok::<TokenView, Failure>(
                                    TokenView::Tree(op, Box::new(left), Box::new(right)),
                                ));
                            }
                        },
                        _ => {},
                    }
                }
            },
        }
    }
}

/// No sequence of tokens has an operator for its tree.
pub proof fn lemma_tree_is_no_operator(tokens: Seq<TokenView>)
    ensures
        !(treeified(tokens) matches Ok(TokenView::Op(_))),
    decreases tokens,
{
    if tokens.len() == 1 {
        match tokens[0] {
            TokenView::Group(inner) => {
                lemma_tree_is_no_operator(inner);
            },
            _ => {},
        }
    } else {
        lemma_reduced_is_no_operator(operands(tokens), live_counts(tokens));
    }
}

proof fn lemma_operators_at_most(tokens: Seq<TokenView>, level: u8)
    ensures
        operators_at(tokens, level) <= tokens.len(),
    decreases tokens.len(),
{
    if tokens.len() > 0 {
        lemma_operators_at_most(tokens.drop_last(), level);
    }
}

proof fn lemma_operators_after_push(tokens: Seq<TokenView>, token: TokenView, level: u8)
    ensures
        operators_at(tokens.push(token), level) == operators_at(tokens, level) + (match token {
            TokenView::Op(op) if op.precedence() == level => 1nat,
            _ => 0nat,
        }),
{
    assert(tokens.push(token).drop_last() =~= tokens);
}

/// The counts of `first`, an operator, `second`, an operator and `third`,
/// where none of the three is an operator.
proof fn lemma_counts_of_five(
    first: TokenView,
    op1: Op,
    second: TokenView,
    op2: Op,
    third: TokenView,
    level: u8,
)
    requires
        !(first is Op),
        !(second is Op),
        !(third is Op),
    ensures
        operators_at(
            seq![first, TokenView::Op(op1), second, TokenView::Op(op2), third],
            level,
        ) == (if op1.precedence() == level {
            1nat
        } else {
            0nat
        }) + (if op2.precedence() == level {
            1nat
        } else {
            0nat
        }),
{
    let e = Seq::<TokenView>::empty();
    lemma_operators_after_push(e, first, level);
    lemma_operators_after_push(e.push(first), TokenView::Op(op1), level);
    lemma_operators_after_push(e.push(first).push(TokenView::Op(op1)), second, level);
    lemma_operators_after_push(
        e.push(first).push(TokenView::Op(op1)).push(second),
        TokenView::Op(op2),
        level,
    );
    lemma_operators_after_push(
        e.push(first).push(TokenView::Op(op1)).push(second).push(TokenView::Op(op2)),
        third,
        level,
    );
    assert(seq![first, TokenView::Op(op1), second, TokenView::Op(op2), third] =~= e.push(first).push(
        TokenView::Op(op1),
    ).push(second).push(TokenView::Op(op2)).push(third));
}

proof fn lemma_operand_is_no_operator(token: TokenView)
    requires
        !(token is Op),
    ensures
        !(operand(token) matches Ok(TokenView::Op(_))),
{
    match token {
        TokenView::Group(inner) => {
            lemma_tree_is_no_operator(inner);
        },
        _ => {},
    }
}

/// `^` binds tighter than `*` and `/`: in `a op b ^ n` the exponent
/// belongs to `b` alone. The three operands are any tokens but operators
/// that stand for a tree.
pub proof fn power_binds_tighter(a: TokenView, op: Op, b: TokenView, n: TokenView)
    requires
        op != Op::Pow,
        !(a is Op) && !(b is Op) && !(n is Op),
        operand(a) is Ok && operand(b) is Ok && operand(n) is Ok,
    ensures
        treeified(seq![a, TokenView::Op(op), b, TokenView::Op(Op::Pow), n]) == Ok::<
            TokenView,
            Failure,
        >(
            TokenView::Tree(
                op,
                Box::new(operand(a)->Ok_0),
                Box::new(
                    TokenView::Tree(
                        Op::Pow,
                        Box::new(operand(b)->Ok_0),
                        Box::new(operand(n)->Ok_0),
                    ),
                ),
            ),
        ),
{
    let tokens = seq![a, TokenView::Op(op), b, TokenView::Op(Op::Pow), n];
    let items = operands(tokens);
    let counts = live_counts(tokens);
    lemma_counts_of_five(a, op, b, Op::Pow, n, 2);
    lemma_counts_of_five(a, op, b, Op::Pow, n, 3);
    lemma_operand_is_no_operator(a);
    lemma_operand_is_no_operator(b);
    lemma_operand_is_no_operator(n);
    assert(top_level(counts) == Some(3u8));
    reveal_with_fuel(first_due, 6);
    assert(first_due(items, counts, 0) == Some(3int));
    let power = TokenView::Tree(Op::Pow, Box::new(operand(b)->Ok_0), Box::new(operand(n)->Ok_0));
    let next = items.subrange(0, 2).push(Ok(power)) + items.subrange(5, 5);
    let fewer = one_less(counts, 3);
    assert(next =~= seq![operand(a), Ok(TokenView::Op(op)), Ok(power)]);
    assert(top_level(fewer) == Some(2u8));
    assert(first_due(next, fewer, 0) == Some(1int));
    let whole = TokenView::Tree(op, Box::new(operand(a)->Ok_0), Box::new(power));
    let last = next.subrange(0, 0).push(Ok(whole)) + next.subrange(3, 3);
    assert(last =~= seq![Ok::<TokenView, Failure>(whole)]);
    reveal_with_fuel(reduced, 3);
}

/// Operators of one precedence are taken from left to right: `a op1 b op2
/// c` is `(a op1 b) op2 c`. The three operands are any tokens but
/// operators that stand for a tree.
pub proof fn equal_precedence_goes_left_to_right(
    a: TokenView,
    op1: Op,
    b: TokenView,
    op2: Op,
    c: TokenView,
)
    requires
        op1.precedence() == op2.precedence(),
        !(a is Op) && !(b is Op) && !(c is Op),
        operand(a) is Ok && operand(b) is Ok && operand(c) is Ok,
    ensures
        treeified(seq![a, TokenView::Op(op1), b, TokenView::Op(op2), c]) == Ok::<
            TokenView,
            Failure,
        >(
            TokenView::Tree(
                op2,
                Box::new(
                    TokenView::Tree(op1, Box::new(operand(a)->Ok_0), Box::new(operand(b)->Ok_0)),
                ),
                Box::new(operand(c)->Ok_0),
            ),
        ),
{
    let tokens = seq![a, TokenView::Op(op1), b, TokenView::Op(op2), c];
    let items = operands(tokens);
    let counts = live_counts(tokens);
    let level = op1.precedence();
    lemma_counts_of_five(a, op1, b, op2, c, 2);
    lemma_counts_of_five(a, op1, b, op2, c, 3);
    lemma_operand_is_no_operator(a);
    lemma_operand_is_no_operator(b);
    lemma_operand_is_no_operator(c);
    assert(top_level(counts) == Some(level));
    reveal_with_fuel(first_due, 6);
    assert(first_due(items, counts, 0) == Some(1int));
    let left = TokenView::Tree(op1, Box::new(operand(a)->Ok_0), Box::new(operand(b)->Ok_0));
    let next = items.subrange(0, 0).push(Ok(left)) + items.subrange(3, 5);
    let fewer = one_less(counts, level);
    assert(next =~= seq![Ok(left), Ok(TokenView::Op(op2)), operand(c)]);
    assert(top_level(fewer) == Some(level));
    assert(first_due(next, fewer, 0) == Some(1int));
    let whole = TokenView::Tree(op2, Box::new(left), Box::new(operand(c)->Ok_0));
    let last = next.subrange(0, 0).push(Ok(whole)) + next.subrange(3, 3);
    assert(last =~= seq![Ok::<TokenView, Failure>(whole)]);
    reveal_with_fuel(reduced, 3);
}

/// The tokens that are left to reduce and the counts of their operators.
pub struct Treeifyer {
    tokens: Vec<Token>,
    precedence: OpCounts,
}

impl Treeifyer {
    /// Builds the tree of a sequence of tokens.
    pub fn treeify(tokens: Vec<Token>) -> (r: Result<Token, ParseError>)
        ensures
            match treeified(tokens_view(tokens@)) {
                Ok(tree) => r is Ok && r->Ok_0@ == tree,
                Err(e) => r is Err && r->Err_0@ == e,
            },
        decreases tokens, 2nat,
    {
        let ghost whole = tokens;
        let mut tokens = tokens;
        if tokens.len() == 1 {
            proof {
                vstd::std_specs::vec::axiom_vec_index_decreases(whole, 0);
            }
            let token = tokens.pop().unwrap();
            return match token {
                Token::Group(inner) => Treeifyer::treeify(inner),
                Token::Unit(unit) => Ok(Token::Unit(unit)),
                Token::Tree(op, left, right) => Ok(Token::Tree(op, left, right)),
                Token::Num(..) => Err(ParseError::UnexpectedNumber),
                Token::Op(..) => Err(ParseError::MissingOperand),
            };
        }
        if tokens.len() == 0 {
            assert(operands(tokens_view(tokens@)).len() == 0);
            return Err(ParseError::MissingOperand);
        }
        let mut ctx = Self::new(tokens);
        ctx.update_precedence_counts();
        proof {
            assert forall|k: int| 0 <= k < whole@.len() implies decreases_to!(whole => #[trigger] whole@[k]) by {
                vstd::std_specs::vec::axiom_vec_index_decreases(whole, k);
            }
        }
        ctx._treeify(Ghost(whole))?;
        Ok(ctx.tokens.pop().unwrap())
    }

    fn new(tokens: Vec<Token>) -> (ctx: Self)
        ensures
            ctx.tokens == tokens,
            levels(ctx.precedence) == (Map::<u8, u64>::empty()),
    {
        Self { tokens, precedence: OpCounts::new() }
    }

    /// The highest level that still has operators to reduce.
    fn top(&self) -> (top: Option<u8>)
        ensures
            top == top_level(levels(self.precedence)),
    {
        match self.precedence.get(3) {
            Some(count) if count > 0 => Some(3),
            _ => match self.precedence.get(2) {
                Some(count) if count > 0 => Some(2),
                _ => None,
            },
        }
    }

    /// The tree that a token stands for as an operand.
    fn make_tree(token: Token, Ghost(whole): Ghost<Vec<Token>>) -> (r: Result<Token, ParseError>)
        requires
            token is Group ==> decreases_to!(whole => token),
        ensures
            match operand(token@) {
                Ok(tree) => r is Ok && r->Ok_0@ == tree,
                Err(e) => r is Err && r->Err_0@ == e,
            },
        decreases whole, 0nat,
    {
        match token {
            Token::Group(inner) => Treeifyer::treeify(inner),
            other => Ok(other),
        }
    }

    fn _treeify(&mut self, Ghost(whole): Ghost<Vec<Token>>) -> (r: Result<(), ParseError>)
        requires
            old(self).tokens@.len() >= 2,
            forall|k: int|
                0 <= k < old(self).tokens@.len() ==> decreases_to!(whole => #[trigger] old(self).tokens@[k]),
        ensures
            match reduced(operands(tokens_view(old(self).tokens@)), levels(old(self).precedence)) {
                Ok(tree) => r is Ok && final(self).tokens@.len() == 1 && final(self).tokens@[0]@
                    == tree,
                Err(e) => r is Err && r->Err_0@ == e,
            },
        decreases whole, 1nat,
    {
        let ghost goal = reduced(operands(tokens_view(self.tokens@)), levels(self.precedence));
        while self.tokens.len() > 1
            invariant
                self.tokens@.len() >= 1,
                self.tokens@.len() == 1 ==> self.tokens@[0] is Tree,
                goal == reduced(
                    operands(tokens_view(old(self).tokens@)),
                    levels(old(self).precedence),
                ),
                reduced(operands(tokens_view(self.tokens@)), levels(self.precedence)) == goal,
                forall|k: int|
                    0 <= k < self.tokens@.len() ==> (#[trigger] self.tokens@[k]) is Group
                        ==> decreases_to!(whole => self.tokens@[k]),
            decreases self.tokens@.len(),
        {
            let ghost before = self.tokens@.len();
            let mut i: usize = 0;
            let mut done = false;
            while i < self.tokens.len() && !done
                invariant
                    self.tokens@.len() >= 1,
                    self.tokens@.len() == 1 ==> self.tokens@[0] is Tree,
                    goal == reduced(
                        operands(tokens_view(old(self).tokens@)),
                        levels(old(self).precedence),
                    ),
                    reduced(operands(tokens_view(self.tokens@)), levels(self.precedence)) == goal,
                    forall|k: int|
                        0 <= k < self.tokens@.len() ==> (#[trigger] self.tokens@[k]) is Group
                            ==> decreases_to!(whole => self.tokens@[k]),
                    !done ==> self.tokens@.len() == before && i <= before && first_due(
                        operands(tokens_view(self.tokens@)),
                        levels(self.precedence),
                        0,
                    ) == first_due(
                        operands(tokens_view(self.tokens@)),
                        levels(self.precedence),
                        i as int,
                    ),
                    done ==> self.tokens@.len() < before,
                    before > 1,
                decreases before - i + (if done { 0int } else { 1int }),
            {
                let ghost items = operands(tokens_view(self.tokens@));
                let ghost counts = levels(self.precedence);
                let found: Option<Op> = match &self.tokens[i] {
                    Token::Op(op) => Some(*op),
                    _ => None,
                };
                let top = self.top();
                let is_due = match (found, top) {
                    (Some(op), Some(level)) => op.precedence() >= level,
                    _ => false,
                };
                proof {
                    match self.tokens@[i as int]@ {
                        TokenView::Group(inner) => {
                            lemma_tree_is_no_operator(inner);
                        },
                        _ => {},
                    }
                    assert(is_due == due(items[i as int], counts));
                }
                if !is_due {
                    i += 1;
                } else {
                    let op = found.unwrap();
                    if i == 0 || i + 1 >= self.tokens.len() {
                        return Err(ParseError::MissingOperand);
                    }
                    let left = Self::make_tree(self.tokens.remove(i - 1), Ghost(whole))?;
                    let right = Self::make_tree(self.tokens.remove(i), Ghost(whole))?;
                    self.tokens.set(i - 1, Token::Tree(op, Box::new(left), Box::new(right)));
                    let level: u8 = op.precedence();
                    match self.precedence.get(level) {
                        Some(count) if count > 0 => {
                            self.precedence.insert(level, count - 1);
                        },
                        _ => {},
                    }
                    proof {
                        let next = items.subrange(0, i - 1).push(
                            Ok(TokenView::Tree(op, Box::new(left@), Box::new(right@))),
                        ) + items.subrange(i + 2, items.len() as int);
                        assert(operands(tokens_view(self.tokens@)) =~= next);
                    }
                    done = true;
                }
            }
            if !done {
                return Err(ParseError::MissingOperator);
            }
        }
        Ok(())
    }

    fn update_precedence_counts(&mut self)
        requires
            levels(old(self).precedence) == (Map::<u8, u64>::empty()),
        ensures
            final(self).tokens == old(self).tokens,
            levels(final(self).precedence) == live_counts(tokens_view(old(self).tokens@)),
    {
        let mut i: usize = 0;
        assert(tokens_view(self.tokens@.take(0)) =~= Seq::<TokenView>::empty());
        assert(levels(self.precedence) =~= live_counts(Seq::<TokenView>::empty()));
        while i < self.tokens.len()
            invariant
                i <= self.tokens.len(),
                self.tokens == old(self).tokens,
                levels(self.precedence) == live_counts(tokens_view(self.tokens@.take(i as int))),
            decreases self.tokens.len() - i,
        {
            let ghost seen = tokens_view(self.tokens@.take(i as int));
            let ghost next = tokens_view(self.tokens@.take(i + 1));
            proof {
                assert(next.drop_last() =~= seen);
                assert(next.last() == self.tokens@[i as int]@);
            }
            if let Token::Op(op) = &self.tokens[i] {
                let level: u8 = op.precedence();
                let count: u64 = match self.precedence.get(level) {
                    Some(count) => count,
                    None => 0,
                };
                proof {
                    lemma_operators_at_most(seen, level);
                }
                self.precedence.insert(level, count + 1);
            }
            proof {
                assert(levels(self.precedence) =~= live_counts(next));
            }
            i += 1;
        }
        assert(self.tokens@.take(self.tokens.len() as int) =~= self.tokens@);
    }
}

} // verus!
