//! The text of a request: a value, the unit it is in and the unit it is
//! wanted in, as in `10 m/s => mi/h` or `50 kWh to J`.

use crate::text::{digits_end, white_space};
use vstd::prelude::*;

verus! {

/// A request in its three parts. The value is kept as text: reading it as
/// a number is the caller's.
#[derive(Debug, PartialEq, Eq)]
pub struct Input {
    pub value: String,
    pub from_unit: String,
    pub to_unit: String,
}

/// Why a text is no request.
#[derive(Debug, Clone, Copy, PartialEq, Eq, Structural)]
pub enum InputError {
    /// Neither `=>` nor ` to ` separates two units.
    MissingSeparator,
    /// The text does not start with a number.
    MissingValue,
}

/// The three parts of a request as sequences of characters.
pub struct Parts {
    pub value: Seq<char>,
    pub from_unit: Seq<char>,
    pub to_unit: Seq<char>,
}

impl View for Input {
    type V = Parts;

    open spec fn view(&self) -> Parts {
        Parts { value: self.value@, from_unit: self.from_unit@, to_unit: self.to_unit@ }
    }
}

/// Whether the separator `=>` starts at `i`.
pub open spec fn arrow_at(s: Seq<char>, i: int) -> bool {
    0 <= i && i + 2 <= s.len() && s[i] == '=' && s[i + 1] == '>'
}

/// Whether the separator ` to ` starts at `i`.
pub open spec fn word_at(s: Seq<char>, i: int) -> bool {
    0 <= i && i + 4 <= s.len() && s[i] == ' ' && s[i + 1] == 't' && s[i + 2] == 'o' && s[i + 3]
        == ' '
}

/// The first position from `from` on where a separator starts, with the
/// length of that separator.
pub open spec fn separator(s: Seq<char>, from: int) -> Option<(int, int)>
    decreases s.len() - from,
{
    if from < 0 || from >= s.len() {
        None
    } else if arrow_at(s, from) {
        Some((from, 2int))
    } else if word_at(s, from) {
        Some((from, 4int))
    } else {
        separator(s, from + 1)
    }
}

/// Whether the flags mark position `i` as white space. A position
/// without a flag is not white space.
pub open spec fn marked(white: Seq<bool>, i: int) -> bool {
    0 <= i < white.len() && white[i]
}

/// For each character whether it is white space.
pub open spec fn white_flags(s: Seq<char>) -> Seq<bool> {
    Seq::new(s.len(), |i: int| white_space(s[i]))
}

/// The first position from `from` on, below `to`, that holds no white
/// space; `to` if there is none.
pub open spec fn first_black(white: Seq<bool>, from: int, to: int) -> int
    decreases to - from,
{
    if from < to && marked(white, from) {
        first_black(white, from + 1, to)
    } else {
        from
    }
}

/// The end of the text between `from` and `to` once the white space at
/// its end is left off.
pub open spec fn last_black(white: Seq<bool>, from: int, to: int) -> int
    decreases to - from,
{
    if from < to && marked(white, to - 1) {
        last_black(white, from, to - 1)
    } else {
        to
    }
}

/// The text between `from` and `to` without the white space at its ends.
pub open spec fn trimmed(s: Seq<char>, white: Seq<bool>, from: int, to: int) -> Seq<char> {
    let start = first_black(white, from, to);
    let end = last_black(white, start, to);
    if 0 <= start <= end <= s.len() {
        s.subrange(start, end)
    } else {
        Seq::empty()
    }
}

/// Where a sign at `i` ends: behind it, or at `i` if there is none.
pub open spec fn sign_end(s: Seq<char>, i: int) -> int {
    if 0 <= i < s.len() && (s[i] == '+' || s[i] == '-') {
        i + 1
    } else {
        i
    }
}

/// Where the number ends that starts at `start`; `start` itself if none
/// does. A number is an optional sign, digits with an optional point among
/// or around them, at least one digit in all, and optionally `e` or `E`,
/// an optional sign and at least one digit.
pub open spec fn number_end(s: Seq<char>, start: int) -> int {
    let whole_from = sign_end(s, start);
    let whole_to = digits_end(s, whole_from);
    let pointed = 0 <= whole_to < s.len() && s[whole_to] == '.';
    let part_to = if pointed {
        digits_end(s, whole_to + 1)
    } else {
        whole_to
    };
    let digits = (whole_to - whole_from) + (if pointed {
        part_to - (whole_to + 1)
    } else {
        0
    });
    if digits <= 0 {
        start
    } else if 0 <= part_to < s.len() && (s[part_to] == 'e' || s[part_to] == 'E') {
        let power_from = sign_end(s, part_to + 1);
        let power_to = digits_end(s, power_from);
        if power_to > power_from {
            power_to
        } else {
            part_to
        }
    } else {
        part_to
    }
}

/// The parts of a request, where `white` marks the characters that are
/// white space.
///
/// The text is cut at the first `=>` or ` to `. What follows, without the
/// white space at its ends, is the unit to convert to. What precedes, taken
/// likewise, starts with the value: the longest number at its start. The
/// rest of it, again without white space at its ends, is the unit to
/// convert from.
pub open spec fn request(s: Seq<char>, white: Seq<bool>) -> Result<Parts, InputError> {
    match separator(s, 0) {
        None => Err(InputError::MissingSeparator),
        Some((at, width)) => {
            let start = first_black(white, 0, at);
            let end = number_end(s.take(at), start);
            if end <= start {
                Err(InputError::MissingValue)
            } else {
                Ok(
                    Parts {
                        value: s.subrange(start, end),
                        from_unit: trimmed(s, white, end, at),
                        to_unit: trimmed(s, white, at + width, s.len() as int),
                    },
                )
            }
        },
    }
}

fn find_separator(s: &Vec<char>) -> (r: Option<(usize, usize)>)
    ensures
        match r {
            Some((at, width)) => separator(s@, 0) == Some((at as int, width as int)) && at + width
                <= s@.len() && (width == 2 || width == 4),
            None => separator(s@, 0) is None,
        },
{
    let mut i: usize = 0;
    while i < s.len()
        invariant
            i <= s@.len(),
            separator(s@, 0) == separator(s@, i as int),
        decreases s@.len() - i,
    {
        if s.len() - i >= 2 && s[i] == '=' && s[i + 1] == '>' {
            return Some((i, 2));
        }
        if s.len() - i >= 4 && s[i] == ' ' && s[i + 1] == 't' && s[i + 2] == 'o' && s[i + 3] == ' ' {
            return Some((i, 4));
        }
        i += 1;
    }
    None
}

fn skip_white(white: &Vec<bool>, from: usize, to: usize) -> (r: usize)
    requires
        from <= to,
    ensures
        r == first_black(white@, from as int, to as int),
        from <= r <= to,
{
    let mut i: usize = from;
    while i < to && i < white.len() && white[i]
        invariant
            from <= i <= to,
            first_black(white@, from as int, to as int) == first_black(white@, i as int, to as int),
        decreases to - i,
    {
        i += 1;
    }
    i
}

fn drop_white(white: &Vec<bool>, from: usize, to: usize) -> (r: usize)
    requires
        from <= to,
    ensures
        r == last_black(white@, from as int, to as int),
        from <= r <= to,
{
    let mut i: usize = to;
    while from < i && i - 1 < white.len() && white[i - 1]
        invariant
            from <= i <= to,
            last_black(white@, from as int, to as int) == last_black(white@, from as int, i as int),
        decreases i,
    {
        i -= 1;
    }
    i
}

fn skip_digits(s: &Vec<char>, from: usize, to: usize) -> (r: usize)
    requires
        from <= to <= s@.len(),
    ensures
        r == digits_end(s@.take(to as int), from as int),
        from <= r <= to,
{
    let mut i: usize = from;
    while i < to && '0' <= s[i] && s[i] <= '9'
        invariant
            from <= i <= to <= s@.len(),
            digits_end(s@.take(to as int), from as int) == digits_end(s@.take(to as int), i as int),
        decreases to - i,
    {
        i += 1;
    }
    i
}

fn skip_sign(s: &Vec<char>, from: usize, to: usize) -> (r: usize)
    requires
        from <= to <= s@.len(),
    ensures
        r == sign_end(s@.take(to as int), from as int),
        from <= r <= to,
{
    if from < to && (s[from] == '+' || s[from] == '-') {
        from + 1
    } else {
        from
    }
}

fn skip_number(s: &Vec<char>, start: usize, to: usize) -> (r: usize)
    requires
        start <= to <= s@.len(),
    ensures
        r == number_end(s@.take(to as int), start as int),
        start <= r <= to,
{
    let whole_from = skip_sign(s, start, to);
    let whole_to = skip_digits(s, whole_from, to);
    let pointed = whole_to < to && s[whole_to] == '.';
    let part_to = if pointed {
        skip_digits(s, whole_to + 1, to)
    } else {
        whole_to
    };
    let digits = (whole_to - whole_from) + (if pointed {
        part_to - (whole_to + 1)
    } else {
        0
    });
    if digits == 0 {
        start
    } else if part_to < to && (s[part_to] == 'e' || s[part_to] == 'E') {
        let power_from = skip_sign(s, part_to + 1, to);
        let power_to = skip_digits(s, power_from, to);
        if power_to > power_from {
            power_to
        } else {
            part_to
        }
    } else {
        part_to
    }
}

fn text_between(s: &Vec<char>, from: usize, to: usize) -> (r: String)
    requires
        from <= to <= s@.len(),
    ensures
        r@ == s@.subrange(from as int, to as int),
{
    let mut out = String::new();
    let mut i: usize = from;
    while i < to
        invariant
            from <= i <= to <= s@.len(),
            out@ == s@.subrange(from as int, i as int),
        decreases to - i,
    {
        out.push(s[i]);
        assert(s@.subrange(from as int, i + 1) =~= s@.subrange(from as int, i as int).push(s@[i as int]));
        i += 1;
    }
    out
}

fn trim(s: &Vec<char>, white: &Vec<bool>, from: usize, to: usize) -> (r: String)
    requires
        from <= to <= s@.len(),
    ensures
        r@ == trimmed(s@, white@, from as int, to as int),
{
    let start = skip_white(white, from, to);
    let end = drop_white(white, start, to);
    text_between(s, start, end)
}

impl Input {
    /// Reads the three parts of a request.
    pub fn parse(text: &str) -> (r: Result<Input, InputError>)
        ensures
            match request(text@, white_flags(text@)) {
                Ok(parts) => r is Ok && r->Ok_0@ == parts,
                Err(e) => r == Err::<Input, InputError>(e),
            },
    {
        let mut chars: Vec<char> = Vec::new();
        let mut white: Vec<bool> = Vec::new();
        for c in it: text.chars()
            invariant
                it.seq() == text@,
                chars@ == text@.take(it.index() as int),
                white@ == white_flags(text@).take(it.index() as int),
        {
            chars.push(c);
            white.push(c.is_whitespace());
            assert(text@.take(it.index() + 1) =~= text@.take(it.index() as int).push(c));
            assert(white_flags(text@).take(it.index() + 1) =~= white_flags(text@).take(
                it.index() as int,
            ).push(white_space(c)));
        }
        assert(text@.take(text@.len() as int) =~= text@);
        assert(white_flags(text@).take(text@.len() as int) =~= white_flags(text@));
        Input::split(&chars, &white)
    }

    /// Cuts the characters of a request into its three parts; `white` says
    /// of each character whether it is white space.
    pub fn split(chars: &Vec<char>, white: &Vec<bool>) -> (r: Result<Input, InputError>)
        ensures
            match request(chars@, white@) {
                Ok(parts) => r is Ok && r->Ok_0@ == parts,
                Err(e) => r == Err::<Input, InputError>(e),
            },
    {
        match find_separator(chars) {
            None => Err(InputError::MissingSeparator),
            Some((at, width)) => {
                let start = skip_white(white, 0, at);
                let end = skip_number(chars, start, at);
                if end <= start {
                    Err(InputError::MissingValue)
                } else {
                    let value = text_between(chars, start, end);
                    let from_unit = trim(chars, white, end, at);
                    let length = chars.len();
                    let to_unit = trim(chars, white, at + width, length);
                    Ok(Input { value, from_unit, to_unit })
                }
            },
        }
    }
}

impl InputError {
    /// What the failure says, as a value.
    pub open spec fn message_spec(self) -> Seq<char> {
        match self {
            InputError::MissingSeparator => "Expected `<value> <unit> => <unit>`"@,
            InputError::MissingValue => "Expected a number at the start"@,
        }
    }

    /// What the failure says.
    pub fn message(&self) -> (text: String)
        ensures
            text@ == self.message_spec(),
    {
        match self {
            InputError::MissingSeparator => "Expected `<value> <unit> => <unit>`".to_owned(),
            InputError::MissingValue => "Expected a number at the start".to_owned(),
        }
    }
}

} // verus!
