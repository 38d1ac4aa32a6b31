//! From the text of a unit expression to its tokens.

use super::{tokens_view, Failure, Op, ParseError, Token, TokenView, Unit};
use crate::prefix::resolved;
use crate::shorthand::{Constituent, ConstituentView, HandUnit, HandUnitView};
use crate::text::{parse_whole, spaced, white_space, whole_number, with_spaces};
use crate::units::derived::{constant, DerivedConversion, DerivedView};
use crate::units::{ConversionType, ConversionTypeView, Decimal, TableView, UnitTable};
use vstd::prelude::*;

verus! {

/// The factor one.
pub open spec fn one() -> Decimal {
    Decimal { mantissa: 1, exponent: 0 }
}

/// The virtual unit that scales by ten to the power of `sci_exponent` and
/// by nothing else.
pub open spec fn scale_unit(sci_exponent: int) -> Unit {
    constant(one(), sci_exponent as i64)
}

/// The units as tokens with a `*` between each two.
pub open spec fn joined(units: Seq<Unit>) -> Seq<TokenView>
    decreases units.len(),
{
    if units.len() == 0 {
        Seq::empty()
    } else if units.len() == 1 {
        seq![TokenView::Unit(units[0])]
    } else {
        joined(units.drop_last()).push(TokenView::Op(Op::Mul)).push(TokenView::Unit(units.last()))
    }
}

/// The group that a derived unit expands to: the product of its units and,
/// where it is scaled and holds any unit, of a virtual unit that carries
/// the scale.
pub open spec fn derived_group(derived: DerivedView, sci_exponent: int) -> TokenView {
    let product = joined(derived.expand);
    if sci_exponent != 0 && product.len() > 0 {
        TokenView::Group(
            product.push(TokenView::Op(Op::Mul)).push(TokenView::Unit(scale_unit(sci_exponent))),
        )
    } else {
        TokenView::Group(product)
    }
}

/// The token of one factor of a shorthand, scaled by `extra` on top of its
/// own scale. A derived factor has no power of its own.
pub open spec fn factor_token(factor: HandUnitView, extra: int) -> TokenView {
    match factor.conversion {
        ConstituentView::Conversion(conversion) => TokenView::Unit(
            Unit {
                conversion,
                power: factor.power,
                sci_exponent: (factor.sci_exponent + extra) as i64,
            },
        ),
        ConstituentView::DerivedConversion(derived) => derived_group(
            derived,
            factor.sci_exponent + extra,
        ),
    }
}

/// The factors from position `from` on, each followed by a `*`. Only the
/// first factor of a shorthand takes the scale of the shorthand.
pub open spec fn factor_tokens(factors: Seq<HandUnitView>, sci_exponent: int, from: int) -> Seq<
    TokenView,
>
    decreases factors.len() - from,
{
    if from < 0 || from >= factors.len() {
        Seq::empty()
    } else {
        seq![
            factor_token(
                factors[from],
                if from == 0 {
                    sci_exponent
                } else {
                    0
                },
            ),
            TokenView::Op(Op::Mul),
        ] + factor_tokens(factors, sci_exponent, from + 1)
    }
}

/// The sequence without its last token, if it has one.
pub open spec fn without_last(tokens: Seq<TokenView>) -> Seq<TokenView> {
    if tokens.len() > 0 {
        tokens.drop_last()
    } else {
        tokens
    }
}

/// The tokens with those of a conversion added at the end.
///
/// A unit adds itself, with the given power or else power 1. A derived
/// unit adds its group. A shorthand adds its factors with a `*` between
/// each two, not as a group; one without factors takes the last token away.
pub open spec fn with_conversion(
    tokens: Seq<TokenView>,
    conversion: ConversionTypeView,
    power: Option<i64>,
    sci_exponent: i32,
) -> Seq<TokenView> {
    match conversion {
        ConversionTypeView::Conversion(conversion) => tokens.push(
            TokenView::Unit(
                Unit {
                    conversion,
                    power: match power {
                        Some(power) => power,
                        None => 1,
                    },
                    sci_exponent: sci_exponent as i64,
                },
            ),
        ),
        ConversionTypeView::DerivedConversion(derived) => tokens.push(
            derived_group(derived, sci_exponent as int),
        ),
        ConversionTypeView::Shorthand(shorthand) => without_last(
            tokens + factor_tokens(shorthand.unit, sci_exponent as int, 0),
        ),
    }
}

/// The values of a sequence with a token added are the values of the
/// sequence with the value of the token added.
pub proof fn lemma_view_of_push(tokens: Seq<Token>, token: Token)
    ensures
        tokens_view(tokens.push(token)) == tokens_view(tokens).push(token@),
{
    assert(tokens_view(tokens.push(token)) =~= tokens_view(tokens).push(token@));
}

fn derived_token(derived: &DerivedConversion, sci_exponent: i64) -> (token: Token)
    ensures
        token@ == derived_group(derived@, sci_exponent as int),
{
    let mut new_tokens: Vec<Token> = Vec::new();
    let mut i: usize = 0;
    assert(tokens_view(new_tokens@) =~= joined(derived.expand@.take(0)));
    while i < derived.expand.len()
        invariant
            i <= derived.expand@.len(),
            tokens_view(new_tokens@) == joined(derived.expand@.take(i as int)),
            (i == 0) == (new_tokens@.len() == 0),
        decreases derived.expand@.len() - i,
    {
        proof {
            assert(derived.expand@.take(i + 1).drop_last() =~= derived.expand@.take(i as int));
        }
        if i > 0 {
            proof {
                lemma_view_of_push(new_tokens@, Token::Op(Op::Mul));
            }
            new_tokens.push(Token::Op(Op::Mul));
        }
        proof {
            lemma_view_of_push(new_tokens@, Token::Unit(derived.expand@[i as int]));
        }
        new_tokens.push(Token::Unit(derived.expand[i]));
        i += 1;
    }
    assert(derived.expand@.take(derived.expand@.len() as int) =~= derived.expand@);
    if sci_exponent != 0 && !new_tokens.is_empty() {
        proof {
            lemma_view_of_push(new_tokens@, Token::Op(Op::Mul));
            lemma_view_of_push(
                new_tokens@.push(Token::Op(Op::Mul)),
                Token::Unit(scale_unit(sci_exponent as int)),
            );
        }
        new_tokens.push(Token::Op(Op::Mul));
        new_tokens.push(Token::Unit(constant(Decimal { mantissa: 1, exponent: 0 }, sci_exponent)));
    }
    Token::Group(new_tokens)
}

fn factor(unit: &HandUnit, extra: i32) -> (token: Token)
    ensures
        token@ == factor_token(unit@, extra as int),
{
    let sci_exponent: i64 = unit.sci_exponent as i64 + extra as i64;
    match &unit.conversion {
        Constituent::Conversion(conversion) => Token::Unit(
            Unit { conversion: *conversion, power: unit.power, sci_exponent },
        ),
        Constituent::DerivedConversion(derived) => derived_token(derived, sci_exponent),
    }
}

/// Adds the tokens of a conversion at the end of `tokens`.
///
/// `power` is the power of a plain unit; a derived unit and a shorthand
/// have none. `sci_exponent` is the power of ten of the prefix.
pub fn add_conversion_tokens(
    tokens: &mut Vec<Token>,
    conversion: ConversionType,
    power: Option<i64>,
    sci_exponent: i32,
)
    ensures
        tokens_view(final(tokens)@) == with_conversion(
            tokens_view(old(tokens)@),
            conversion@,
            power,
            sci_exponent,
        ),
{
    match conversion {
        ConversionType::Conversion(conversion) => {
            let unit = Unit {
                conversion,
                power: match power {
                    Some(power) => power,
                    None => 1,
                },
                sci_exponent: sci_exponent as i64,
            };
            proof {
                lemma_view_of_push(tokens@, Token::Unit(unit));
            }
            tokens.push(Token::Unit(unit));
        },
        ConversionType::DerivedConversion(derived) => {
            let group = derived_token(derived, sci_exponent as i64);
            proof {
                lemma_view_of_push(tokens@, group);
            }
            tokens.push(group);
        },
        ConversionType::Shorthand(shorthand) => {
            let mut i: usize = 0;
            let ghost factors = shorthand@.unit;
            let ghost wanted = factor_tokens(factors, sci_exponent as int, 0);
            while i < shorthand.unit.len()
                invariant
                    i <= shorthand.unit@.len(),
                    factors == shorthand@.unit,
                    wanted == factor_tokens(factors, sci_exponent as int, 0),
                    tokens_view(tokens@) + factor_tokens(factors, sci_exponent as int, i as int)
                        == tokens_view(old(tokens)@) + wanted,
                decreases shorthand.unit@.len() - i,
            {
                let extra: i32 = if i == 0 {
                    sci_exponent
                } else {
                    0
                };
                let token = factor(&shorthand.unit[i], extra);
                proof {
                    lemma_view_of_push(tokens@, token);
                    lemma_view_of_push(tokens@.push(token), Token::Op(Op::Mul));
                    let rest = factor_tokens(factors, sci_exponent as int, i + 1);
                    assert(tokens_view(tokens@).push(token@).push(TokenView::Op(Op::Mul)) + rest
                        =~= tokens_view(tokens@) + (seq![token@, TokenView::Op(Op::Mul)] + rest));
                }
                tokens.push(token);
                tokens.push(Token::Op(Op::Mul));
                i += 1;
            }
            proof {
                assert(tokens_view(tokens@) + Seq::<TokenView>::empty() =~= tokens_view(tokens@));
                if tokens@.len() > 0 {
                    assert(tokens_view(tokens@.drop_last()) =~= tokens_view(tokens@).drop_last());
                }
            }
            tokens.pop();
        },
    }
}

/// Where a scan of a text stands: the tokens so far, the text that waits
/// to become a token, the text of the group that is open, and how deep the
/// parentheses are nested.
pub struct Scan {
    pub tokens: Seq<TokenView>,
    pub buffer: Seq<char>,
    pub group: Seq<char>,
    pub depth: nat,
}

/// The operator that a character writes.
pub open spec fn operator(c: char) -> Option<Op> {
    if c == '/' {
        Some(Op::Div)
    } else if c == '*' {
        Some(Op::Mul)
    } else if c == '^' {
        Some(Op::Pow)
    } else {
        None
    }
}

/// The tokens once the waiting text has become a token: nothing for no
/// text, a number for a literal, else what the text names, with `_` and
/// `-` read as spaces. A text that names nothing is refused.
pub open spec fn flushed(table: TableView, tokens: Seq<TokenView>, buffer: Seq<char>) -> Result<
    Seq<TokenView>,
    Failure,
> {
    if buffer.len() == 0 {
        Ok(tokens)
    } else {
        match whole_number(buffer) {
            Some(number) => Ok(tokens.push(TokenView::Num(number))),
            None => match resolved(table, spaced(buffer)) {
                Some((conversion, prefix)) => Ok(
                    with_conversion(
                        tokens,
                        conversion,
                        None,
                        match prefix {
                            Some(prefix) => prefix.power,
                            None => 0,
                        },
                    ),
                ),
                None => Err(Failure::InvalidToken(buffer)),
            },
        }
    }
}

/// The state after one more character, where `white` says whether the
/// character is white space and `inner` is what the text of the open group
/// reads as.
///
/// Inside parentheses every character but `(` and `)` joins the text of
/// the group; the `)` that closes the outermost `(` turns that text into a
/// group token of `inner`. Outside, operators and white space end the
/// waiting text, an operator adds itself, `(` opens a group, `)` is
/// refused, and every other character joins the waiting text.
pub open spec fn stepped(
    table: TableView,
    scan: Scan,
    c: char,
    white: bool,
    inner: Result<Seq<TokenView>, Failure>,
) -> Result<Scan, Failure> {
    if scan.depth > 0 {
        if c == '(' {
            Ok(Scan { depth: scan.depth + 1, ..scan })
        } else if c == ')' {
            if scan.depth == 1 {
                match inner {
                    Ok(inner) => Ok(
                        Scan {
                            tokens: scan.tokens.push(TokenView::Group(inner)),
                            group: Seq::empty(),
                            depth: 0,
                            ..scan
                        },
                    ),
                    Err(e) => Err(e),
                }
            } else {
                Ok(Scan { depth: (scan.depth - 1) as nat, ..scan })
            }
        } else {
            Ok(Scan { group: scan.group.push(c), ..scan })
        }
    } else if operator(c) is Some {
        match flushed(table, scan.tokens, scan.buffer) {
            Ok(tokens) => Ok(
                Scan {
                    tokens: tokens.push(TokenView::Op(operator(c)->Some_0)),
                    buffer: Seq::empty(),
                    ..scan
                },
            ),
            Err(e) => Err(e),
        }
    } else if c == '(' {
        Ok(Scan { depth: 1, ..scan })
    } else if c == ')' {
        Err(Failure::UnmatchedParenthesis)
    } else if white {
        match flushed(table, scan.tokens, scan.buffer) {
            Ok(tokens) => Ok(Scan { tokens, buffer: Seq::empty(), ..scan }),
            Err(e) => Err(e),
        }
    } else {
        Ok(Scan { buffer: scan.buffer.push(c), ..scan })
    }
}

/// The tokens at the end of a text: an open group is refused, else the
/// waiting text becomes the last token.
pub open spec fn finished(table: TableView, scan: Scan) -> Result<Seq<TokenView>, Failure> {
    if scan.depth > 0 {
        Err(Failure::UnclosedParenthesis)
    } else {
        flushed(table, scan.tokens, scan.buffer)
    }
}

/// The tokens of `text` from position `at` on, read in the state `scan`:
/// character by character, see [`stepped`], then [`finished`].
pub open spec fn scanned(table: TableView, text: Seq<char>, at: int, scan: Scan) -> Result<
    Seq<TokenView>,
    Failure,
>
    decreases text.len() - at + scan.group.len(), text.len() - at,
{
    if at < 0 || at >= text.len() {
        finished(table, scan)
    } else {
        match stepped(
            table,
            scan,
            text[at],
            white_space(text[at]),
            tokenized(table, scan.group),
        ) {
            Ok(next) => scanned(table, text, at + 1, next),
            Err(e) => Err(e),
        }
    }
}

/// The tokens of a text.
pub open spec fn tokenized(table: TableView, text: Seq<char>) -> Result<Seq<TokenView>, Failure>
    decreases text.len(), text.len() + 1,
{
    scanned(
        table,
        text,
        0,
        Scan { tokens: Seq::empty(), buffer: Seq::empty(), group: Seq::empty(), depth: 0 },
    )
}

proof fn lemma_inside_a_group(table: TableView, inner: Seq<char>, k: int)
    requires
        0 <= k <= inner.len(),
        forall|i: int| 0 <= i < inner.len() ==> inner[i] != '(' && inner[i] != ')',
    ensures
        scanned(
            table,
            seq!['('] + inner + seq![')'],
            1 + k,
            Scan { tokens: Seq::empty(), buffer: Seq::empty(), group: inner.take(k), depth: 1 },
        ) == (match tokenized(table, inner) {
            Ok(tokens) => Ok(seq![TokenView::Group(tokens)]),
            Err(e) => Err(e),
        }),
    decreases inner.len() - k,
{
    let text = seq!['('] + inner + seq![')'];
    let scan = Scan { tokens: Seq::empty(), buffer: Seq::empty(), group: inner.take(k), depth: 1 };
    if k < inner.len() {
        assert(text[1 + k] == inner[k]);
        assert(inner.take(k).push(inner[k]) =~= inner.take(k + 1));
        lemma_inside_a_group(table, inner, k + 1);
    } else {
        assert(text[1 + k] == ')');
        assert(inner.take(k) =~= inner);
        match tokenized(table, inner) {
            Ok(tokens) => {
                let after = Scan {
                    tokens: Seq::<TokenView>::empty().push(TokenView::Group(tokens)),
                    group: Seq::empty(),
                    depth: 0,
                    ..scan
                };
                assert(scanned(table, text, 2 + k, after) == finished(table, after));
                assert(after.tokens =~= seq![TokenView::Group(tokens)]);
            },
            Err(e) => {},
        }
    }
}

/// A text in parentheses becomes one group that holds the tokens of the
/// text, where the text itself holds no parenthesis; where the text is
/// refused, so is the whole.
pub proof fn parentheses_make_a_group(table: TableView, inner: Seq<char>)
    requires
        forall|i: int| 0 <= i < inner.len() ==> inner[i] != '(' && inner[i] != ')',
    ensures
        tokenized(table, seq!['('] + inner + seq![')']) == (match tokenized(table, inner) {
            Ok(tokens) => Ok(seq![TokenView::Group(tokens)]),
            Err(e) => Err(e),
        }),
{
    let text = seq!['('] + inner + seq![')'];
    assert(text[0] == '(');
    assert(inner.take(0) =~= Seq::<char>::empty());
    lemma_inside_a_group(table, inner, 0);
}

/// The state of a scan: how deep the parentheses are nested, the tokens
/// so far, the text that waits to become a token and the text of the open
/// group.
pub struct Tokenizer {
    depth: usize,
    pub(super) tokens: Vec<Token>,
    buffer: String,
    group: String,
}

impl Tokenizer {
    /// Where the scan stands.
    pub closed spec fn scan(&self) -> Scan {
        Scan {
            tokens: tokens_view(self.tokens@),
            buffer: self.buffer@,
            group: self.group@,
            depth: self.depth as nat,
        }
    }

    /// Reads the tokens of a unit expression, with the names of the
    /// standard table.
    pub fn tokenize(raw: &str) -> (r: Result<Vec<Token>, ParseError>)
        ensures
            match tokenized(UnitTable::standard_spec(), raw@) {
                Ok(tokens) => r is Ok && tokens_view(r->Ok_0@) == tokens,
                Err(e) => r is Err && r->Err_0@ == e,
            },
    {
        let table = UnitTable::standard();
        Tokenizer::tokenize_with(raw, &table)
    }

    /// Reads the tokens of a unit expression, with the names that `table`
    /// knows.
    pub fn tokenize_with(raw: &str, table: &UnitTable) -> (r: Result<Vec<Token>, ParseError>)
        ensures
            match tokenized(table@, raw@) {
                Ok(tokens) => r is Ok && tokens_view(r->Ok_0@) == tokens,
                Err(e) => r is Err && r->Err_0@ == e,
            },
        decreases raw@.len(), 1nat,
    {
        let mut ctx = Self::new();
        // the length of the text bounds the depth of the nesting
        let length = raw.unicode_len();
        for chr in it: raw.chars()
            invariant
                it.seq() == raw@,
                length == raw@.len(),
                scanned(table@, raw@, it.index() as int, ctx.scan()) == tokenized(table@, raw@),
                ctx.scan().depth <= it.index(),
                ctx.scan().depth == 0 ==> ctx.scan().group.len() == 0,
                ctx.scan().depth > 0 ==> ctx.scan().group.len() < it.index(),
        {
            ctx.feed(chr, chr.is_whitespace(), table)?;
        }
        ctx.finish(table)
    }

    /// A scan that has read nothing yet.
    pub fn new() -> (ctx: Self)
        ensures
            ctx.scan() == (Scan {
                tokens: Seq::empty(),
                buffer: Seq::empty(),
                group: Seq::empty(),
                depth: 0,
            }),
    {
        assert(tokens_view(Seq::<Token>::empty()) =~= Seq::<TokenView>::empty());
        Self { depth: 0, tokens: Vec::new(), buffer: String::new(), group: String::new() }
    }

    /// How deep the parentheses are nested.
    pub fn depth(&self) -> (depth: usize)
        ensures
            depth == self.scan().depth,
    {
        self.depth
    }

    /// Reads one more character; `white` says whether it is white space.
    /// The nesting is not as deep yet as a `usize` can count.
    pub fn feed(&mut self, chr: char, white: bool, table: &UnitTable) -> (r: Result<(), ParseError>)
        requires
            old(self).scan().depth < usize::MAX,
        ensures
            match stepped(
                table@,
                old(self).scan(),
                chr,
                white,
                tokenized(table@, old(self).scan().group),
            ) {
                Ok(next) => r is Ok && final(self).scan() == next,
                Err(e) => r is Err && r->Err_0@ == e,
            },
        decreases old(self).scan().group.len() + 1, 0nat,
    {
        if self.depth > 0 {
            if chr == '(' {
                self.depth += 1;
            } else if chr == ')' {
                if self.depth == 1 {
                    let inner = Tokenizer::tokenize_with(self.group.as_str(), table)?;
                    proof {
                        lemma_view_of_push(self.tokens@, Token::Group(inner));
                    }
                    self.tokens.push(Token::Group(inner));
                    self.group = String::new();
                }
                self.depth -= 1;
            } else {
                self.group.push(chr);
            }
            Ok(())
        } else if chr == '/' {
            self.add_token(Op::Div, table)
        } else if chr == '*' {
            self.add_token(Op::Mul, table)
        } else if chr == '^' {
            self.add_token(Op::Pow, table)
        } else if chr == '(' {
            self.depth += 1;
            Ok(())
        } else if chr == ')' {
            Err(ParseError::UnmatchedParenthesis)
        } else if white {
            self.flush_buffer(table)
        } else {
            self.buffer.push(chr);
            Ok(())
        }
    }

    /// Ends the scan and gives its tokens.
    pub fn finish(self, table: &UnitTable) -> (r: Result<Vec<Token>, ParseError>)
        ensures
            match finished(table@, self.scan()) {
                Ok(tokens) => r is Ok && tokens_view(r->Ok_0@) == tokens,
                Err(e) => r is Err && r->Err_0@ == e,
            },
    {
        let mut ctx = self;
        if ctx.depth > 0 {
            return Err(ParseError::UnclosedParenthesis);
        }
        ctx.flush_buffer(table)?;
        Ok(ctx.tokens)
    }

    fn add_token(&mut self, op: Op, table: &UnitTable) -> (r: Result<(), ParseError>)
        ensures
            match flushed(table@, old(self).scan().tokens, old(self).scan().buffer) {
                Ok(tokens) => r is Ok && final(self).scan() == (Scan {
                    tokens: tokens.push(TokenView::Op(op)),
                    buffer: Seq::empty(),
                    ..old(self).scan()
                }),
                Err(e) => r is Err && r->Err_0@ == e,
            },
    {
        self.flush_buffer(table)?;
        proof {
            lemma_view_of_push(self.tokens@, Token::Op(op));
        }
        self.tokens.push(Token::Op(op));
        Ok(())
    }

    fn flush_buffer(&mut self, table: &UnitTable) -> (r: Result<(), ParseError>)
        ensures
            match flushed(table@, old(self).scan().tokens, old(self).scan().buffer) {
                Ok(tokens) => r is Ok && final(self).scan() == (Scan {
                    tokens,
                    buffer: Seq::empty(),
                    ..old(self).scan()
                }),
                Err(e) => r is Err && r->Err_0@ == e,
            },
    {
        if self.buffer.as_str().is_empty() {
            assert(self.buffer@ =~= Seq::<char>::empty());
            return Ok(());
        }
        if let Some(num) = parse_whole(self.buffer.as_str()) {
            proof {
                lemma_view_of_push(self.tokens@, Token::Num(num));
            }
            self.tokens.push(Token::Num(num));
        } else {
            let name = with_spaces(self.buffer.as_str());
            if let Some((conversion, prefix)) = crate::prefix::get(table, name.as_str()) {
                add_conversion_tokens(
                    &mut self.tokens,
                    conversion,
                    None,
                    match prefix {
                        Some(prefix) => prefix.power,
                        None => 0,
                    },
                );
            } else {
                return Err(ParseError::InvalidToken(self.buffer.clone()));
            }
        }
        self.buffer = String::new();
        Ok(())
    }
}

} // verus!
