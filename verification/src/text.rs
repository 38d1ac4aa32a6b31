//! Character-level helpers on strings: comparison, case folding, name
//! normalisation and the grammar of whole-number literals.

use vstd::prelude::*;
use vstd::std_specs::iter::IteratorSpec;

verus! {

/// What `char::is_whitespace` answers for a character: whether it has the
/// Unicode `White_Space` property.
pub uninterp spec fn white_space(c: char) -> bool;

/// `char::is_whitespace`. Taken on trust: its answer depends on the
/// character alone and is the value of [`white_space`].
pub assume_specification[ char::is_whitespace ](c: char) -> (r: bool)
    ensures
        r == white_space(c),
;

/// `String::push`. Taken on trust: it appends the character to the end
/// of the string.
pub assume_specification[ String::push ](s: &mut String, c: char)
    ensures
        final(s)@ == old(s)@.push(c),
;

/// The ASCII lower-case form of a character: `A`..`Z` map to `a`..`z`,
/// everything else stays.
pub open spec fn lower_char(c: char) -> char {
    if 'A' <= c && c <= 'Z' {
        ((c as u8) + 32) as char
    } else {
        c
    }
}

/// The ASCII lower-case form of a text, character by character.
pub open spec fn ascii_lowercase(s: Seq<char>) -> Seq<char> {
    Seq::new(s.len(), |i: int| lower_char(s[i]))
}

/// A unit name as it is looked up: `_` and `-` stand for a space.
pub open spec fn spaced_char(c: char) -> char {
    if c == '_' || c == '-' {
        ' '
    } else {
        c
    }
}

/// The text with every `_` and `-` replaced by a space.
pub open spec fn spaced(s: Seq<char>) -> Seq<char> {
    Seq::new(s.len(), |i: int| spaced_char(s[i]))
}

/// The ASCII lower-case form of a character.
pub fn to_lower(c: char) -> (r: char)
    ensures
        r == lower_char(c),
{
    if 'A' <= c && c <= 'Z' {
        let b: u8 = c as u8;
        (b + 32) as char
    } else {
        c
    }
}

/// Whether two strings hold the same characters.
pub fn same_text(a: &str, b: &str) -> (r: bool)
    ensures
        r == (a@ == b@),
{
    let mut other = b.chars();
    for c in it: a.chars()
        invariant
            it.seq() == a@,
            it.index() <= b@.len(),
            other.remaining() == b@.skip(it.index() as int),
            a@.take(it.index() as int) == b@.take(it.index() as int),
    {
        match other.next() {
            None => {
                return false;
            },
            Some(d) => {
                if c != d {
                    return false;
                }
                assert(b@.take(it.index() + 1) =~= b@.take(it.index() as int).push(d));
                assert(a@.take(it.index() + 1) =~= a@.take(it.index() as int).push(c));
            },
        }
    }
    let last = other.next();
    proof {
        assert(a@.take(a@.len() as int) =~= a@);
        if last.is_none() {
            assert(b@.take(b@.len() as int) =~= b@);
        }
    }
    last.is_none()
}

/// Whether `a` is the ASCII lower-case form of `b`.
pub fn is_lowercase_of(a: &str, b: &str) -> (r: bool)
    ensures
        r == (a@ == ascii_lowercase(b@)),
{
    let mut other = b.chars();
    for c in it: a.chars()
        invariant
            it.seq() == a@,
            it.index() <= b@.len(),
            other.remaining() == b@.skip(it.index() as int),
            a@.take(it.index() as int) == ascii_lowercase(b@).take(it.index() as int),
    {
        match other.next() {
            None => {
                return false;
            },
            Some(d) => {
                if c != to_lower(d) {
                    return false;
                }
                assert(ascii_lowercase(b@).take(it.index() + 1) =~= ascii_lowercase(b@).take(
                    it.index() as int,
                ).push(lower_char(d)));
                assert(a@.take(it.index() + 1) =~= a@.take(it.index() as int).push(c));
            },
        }
    }
    let last = other.next();
    proof {
        assert(a@.take(a@.len() as int) =~= a@);
        if last.is_none() {
            assert(ascii_lowercase(b@).take(b@.len() as int) =~= ascii_lowercase(b@));
        }
    }
    last.is_none()
}

/// Whether `text` begins with the characters of `start`.
pub open spec fn begins_with(text: Seq<char>, start: Seq<char>) -> bool {
    start.len() <= text.len() && text.take(start.len() as int) == start
}

/// Splits `start` off the front of `text`: the rest, if `text` begins with
/// `start`.
pub fn strip_start<'a>(text: &'a str, start: &str) -> (r: Option<&'a str>)
    ensures
        match r {
            Some(rest) => begins_with(text@, start@) && rest@ == text@.skip(start@.len() as int),
            None => !begins_with(text@, start@),
        },
{
    let mut whole = text.chars();
    for c in it: start.chars()
        invariant
            it.seq() == start@,
            it.index() <= text@.len(),
            whole.remaining() == text@.skip(it.index() as int),
            start@.take(it.index() as int) == text@.take(it.index() as int),
    {
        match whole.next() {
            None => {
                return None;
            },
            Some(d) => {
                if c != d {
                    assert(start@.len() <= text@.len() ==> text@.take(start@.len() as int)[it.index() as int]
                        == d);
                    return None;
                }
                assert(text@.take(it.index() + 1) =~= text@.take(it.index() as int).push(d));
                assert(start@.take(it.index() + 1) =~= start@.take(it.index() as int).push(c));
            },
        }
    }
    proof {
        assert(start@.take(start@.len() as int) =~= start@);
    }
    let cut = start.unicode_len();
    let end = text.unicode_len();
    let rest = text.substring_char(cut, end);
    proof {
        assert(text@.subrange(cut as int, end as int) =~= text@.skip(cut as int));
    }
    Some(rest)
}

/// The text with every `_` and `-` replaced by a space.
pub fn with_spaces(text: &str) -> (r: String)
    ensures
        r@ == spaced(text@),
{
    let mut out = String::new();
    for c in it: text.chars()
        invariant
            it.seq() == text@,
            out@ == spaced(text@).take(it.index() as int),
    {
        let d = if c == '_' || c == '-' {
            ' '
        } else {
            c
        };
        out.push(d);
        assert(spaced(text@).take(it.index() + 1) =~= spaced(text@).take(it.index() as int).push(d));
    }
    proof {
        assert(spaced(text@).take(text@.len() as int) =~= spaced(text@));
    }
    out
}

/// Whether the character is one of `0`..`9`.
pub open spec fn is_digit(c: char) -> bool {
    '0' <= c && c <= '9'
}

/// The value of a run of decimal digits, most significant first.
pub open spec fn digits_value(s: Seq<char>) -> int
    decreases s.len(),
{
    if s.len() == 0 {
        0
    } else {
        digits_value(s.drop_last()) * 10 + ((s.last() as u8) as int - 48)
    }
}

/// The end of the run of digits that starts at `i`: the first index from
/// `i` on that holds no digit.
pub open spec fn digits_end(s: Seq<char>, i: int) -> int
    decreases s.len() - i,
{
    if 0 <= i < s.len() && is_digit(s[i]) {
        digits_end(s, i + 1)
    } else {
        i
    }
}

/// Whether the text starts with a sign.
pub open spec fn has_sign(s: Seq<char>) -> bool {
    s.len() > 0 && (s[0] == '+' || s[0] == '-')
}

/// The text without its sign.
pub open spec fn unsigned_part(s: Seq<char>) -> Seq<char> {
    if has_sign(s) {
        s.skip(1)
    } else {
        s
    }
}

/// Whether every character is `0`.
pub open spec fn all_zeros(s: Seq<char>) -> bool {
    forall|i: int| 0 <= i < s.len() ==> s[i] == '0'
}

/// The number that a literal denotes. A literal is an optional sign, one or
/// more digits and, optionally, a point followed by zeros only: numbers are
/// whole. One whose magnitude exceeds `i64::MAX` denotes nothing.
pub open spec fn whole_number(s: Seq<char>) -> Option<int> {
    let body = unsigned_part(s);
    let n = digits_end(body, 0);
    let rest = body.skip(n);
    if n > 0 && (rest.len() == 0 || (rest[0] == '.' && all_zeros(rest.skip(1)))) {
        let magnitude = digits_value(body.take(n));
        if magnitude <= i64::MAX {
            Some(
                if s[0] == '-' {
                    -magnitude
                } else {
                    magnitude
                },
            )
        } else {
            None
        }
    } else {
        None
    }
}

proof fn lemma_digits_value_bounds(s: Seq<char>)
    requires
        forall|i: int| 0 <= i < s.len() ==> is_digit(s[i]),
    ensures
        digits_value(s) >= 0,
        s.len() > 0 ==> digits_value(s) >= digits_value(s.drop_last()),
    decreases s.len(),
{
    if s.len() > 0 {
        lemma_digits_value_bounds(s.drop_last());
    }
}

/// Reads a whole-number literal.
pub fn parse_whole(text: &str) -> (r: Option<i64>)
    ensures
        match r {
            Some(v) => whole_number(text@) == Some(v as int),
            None => whole_number(text@) is None,
        },
{
    let mut first = true;
    let mut negative = false;
    let mut any_digit = false;
    let mut in_fraction = false;
    let mut too_big = false;
    let mut magnitude: u64 = 0;
    let ghost body = unsigned_part(text@);
    let ghost mut off: int = 0;
    let ghost mut n: int = 0;
    for c in it: text.chars()
        invariant
            it.seq() == text@,
            body == unsigned_part(text@),
            first == (it.index() == 0),
            off == (if it.index() > 0 && has_sign(text@) { 1int } else { 0int }),
            negative == (it.index() > 0 && text@[0] == '-'),
            it.index() == 0 ==> !any_digit && !in_fraction && !too_big && magnitude == 0 && n == 0,
            0 <= n <= it.index() - off,
            any_digit == (n > 0),
            forall|i: int| 0 <= i < n ==> is_digit(#[trigger] body[i]),
            digits_end(body, 0) == digits_end(body, n),
            !in_fraction ==> n == it.index() - off,
            in_fraction ==> n > 0 && n < it.index() - off && body[n] == '.' && digits_end(body, n) == n
                && forall|i: int| n < i < it.index() - off ==> body[i] == '0',
            !too_big ==> magnitude == digits_value(body.take(n)) && magnitude <= i64::MAX,
            too_big ==> digits_value(body.take(n)) > i64::MAX,
    {
        let ghost k = it.index() as int;
        if first && (c == '+' || c == '-') {
            negative = c == '-';
            proof {
                off = 1;
            }
        } else if in_fraction {
            if c != '0' {
                proof {
                    let rest = body.skip(n);
                    assert(rest.skip(1)[k - off - n - 1] == c);
                }
                return None;
            }
        } else if '0' <= c && c <= '9' {
            let d: u64 = (c as u8 - 48) as u64;
            proof {
                assert(body[n] == c);
                assert(body.take(n + 1).drop_last() =~= body.take(n));
                lemma_digits_value_bounds(body.take(n + 1));
            }
            if !too_big {
                if magnitude > (0x7fff_ffff_ffff_ffffu64 - d) / 10 {
                    too_big = true;
                } else {
                    magnitude = magnitude * 10 + d;
                }
            }
            any_digit = true;
            proof {
                n = n + 1;
            }
        } else if c == '.' && any_digit {
            in_fraction = true;
            proof {
                assert(body[n] == c);
            }
        } else {
            proof {
                assert(body[n] == c);
                assert(digits_end(body, n) == n);
                let rest = body.skip(n);
                assert(rest[0] == c);
            }
            return None;
        }
        first = false;
    }
    proof {
        let rest = body.skip(n);
        if in_fraction {
            assert(rest[0] == '.');
            assert forall|i: int| 0 <= i < rest.skip(1).len() implies rest.skip(1)[i] == '0' by {
                assert(rest.skip(1)[i] == body[n + 1 + i]);
            }
        } else {
            assert(digits_end(body, n) == n);
            assert(rest.len() == 0);
        }
    }
    if !any_digit || too_big {
        None
    } else if negative {
        Some(-(magnitude as i64))
    } else {
        Some(magnitude as i64)
    }
}

/// The decimal digits of a number, most significant first, each written
/// with the character that `glyph` gives for it.
pub open spec fn digits_of(n: nat, glyph: spec_fn(int) -> char) -> Seq<char>
    decreases n,
{
    if n < 10 {
        seq![glyph(n as int)]
    } else {
        digits_of(n / 10, glyph).push(glyph((n % 10) as int))
    }
}

/// The ASCII character of a digit.
pub open spec fn plain_digit(d: int) -> char {
    ((48 + d) as u8) as char
}

/// The superscript character of a digit.
pub open spec fn raised_digit(d: int) -> char {
    if d == 0 {
        '\u{2070}'
    } else if d == 1 {
        '\u{b9}'
    } else if d == 2 {
        '\u{b2}'
    } else if d == 3 {
        '\u{b3}'
    } else if d == 4 {
        '\u{2074}'
    } else if d == 5 {
        '\u{2075}'
    } else if d == 6 {
        '\u{2076}'
    } else if d == 7 {
        '\u{2077}'
    } else if d == 8 {
        '\u{2078}'
    } else {
        '\u{2079}'
    }
}

/// A whole number in decimal, with `-` in front of a negative one.
pub open spec fn decimal(n: int) -> Seq<char> {
    if n < 0 {
        seq!['-'] + digits_of((-n) as nat, |d: int| plain_digit(d))
    } else {
        digits_of(n as nat, |d: int| plain_digit(d))
    }
}

/// A whole number in superscript digits, with a superscript minus in front
/// of a negative one.
pub open spec fn superscript(n: int) -> Seq<char> {
    if n < 0 {
        seq!['\u{207b}'] + digits_of((-n) as nat, |d: int| raised_digit(d))
    } else {
        digits_of(n as nat, |d: int| raised_digit(d))
    }
}

fn raised(d: u8) -> (c: char)
    requires
        d < 10,
    ensures
        c == raised_digit(d as int),
{
    if d == 0 {
        '\u{2070}'
    } else if d == 1 {
        '\u{b9}'
    } else if d == 2 {
        '\u{b2}'
    } else if d == 3 {
        '\u{b3}'
    } else if d == 4 {
        '\u{2074}'
    } else if d == 5 {
        '\u{2075}'
    } else if d == 6 {
        '\u{2076}'
    } else if d == 7 {
        '\u{2077}'
    } else if d == 8 {
        '\u{2078}'
    } else {
        '\u{2079}'
    }
}

fn push_digits(out: &mut String, n: u64, raise: bool)
    ensures
        final(out)@ == old(out)@ + digits_of(
            n as nat,
            if raise {
                |d: int| raised_digit(d)
            } else {
                |d: int| plain_digit(d)
            },
        ),
    decreases n,
{
    let ghost glyph = if raise {
        |d: int| raised_digit(d)
    } else {
        |d: int| plain_digit(d)
    };
    if n >= 10 {
        push_digits(out, n / 10, raise);
    }
    let d: u8 = (n % 10) as u8;
    let c = if raise {
        raised(d)
    } else {
        (48 + d) as char
    };
    assert(c == glyph(d as int));
    out.push(c);
    proof {
        if n >= 10 {
            assert(old(out)@ + digits_of((n / 10) as nat, glyph).push(c) =~= (old(out)@ + digits_of(
                (n / 10) as nat,
                glyph,
            )).push(c));
        } else {
            assert(old(out)@ + seq![c] =~= old(out)@.push(c));
        }
    }
}

/// Appends a whole number to a string: in decimal, or in superscript
/// where `raise` is set.
pub fn push_number(out: &mut String, n: i64, raise: bool)
    ensures
        final(out)@ == old(out)@ + (if raise {
            superscript(n as int)
        } else {
            decimal(n as int)
        }),
{
    if n < 0 {
        out.push(
            if raise {
                '\u{207b}'
            } else {
                '-'
            },
        );
        let magnitude: u64 = if n == -0x8000_0000_0000_0000 {
            0x8000_0000_0000_0000
        } else {
            (-n) as u64
        };
        push_digits(out, magnitude, raise);
        proof {
            let sign = if raise {
                '\u{207b}'
            } else {
                '-'
            };
            let glyph = if raise {
                |d: int| raised_digit(d)
            } else {
                |d: int| plain_digit(d)
            };
            assert(old(out)@.push(sign) + digits_of(magnitude as nat, glyph) =~= old(out)@ + (seq![sign]
                + digits_of(magnitude as nat, glyph)));
        }
    } else {
        push_digits(out, n as u64, raise);
    }
}

} // verus!
