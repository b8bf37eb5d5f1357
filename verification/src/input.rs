//! Reading what a player typed: the number of a cell, or the answer to the
//! question whether to play again.

use vstd::prelude::*;
use vstd::string::is_ascii_spec_bytes;

verus! {

/// The line did not hold a number that can name a cell.
#[derive(Clone, Copy, Debug, PartialEq, Eq, Structural)]
pub struct ParseError;

const LINE_FEED: u8 = 10;

const CARRIAGE_RETURN: u8 = 13;

const PLUS_SIGN: u8 = 43;

const DIGIT_ZERO: u8 = 48;

const DIGIT_NINE: u8 = 57;

/// `c` is one of the ten decimal digits.
pub open spec fn is_digit(c: char) -> bool {
    '0' <= c <= '9'
}

/// The value of the digit `c`; 0 for any other character.
pub open spec fn digit_value(c: char) -> nat {
    if is_digit(c) {
        (c as int - '0' as int) as nat
    } else {
        0
    }
}

/// Every character of `s` is a decimal digit.
pub open spec fn all_digits(s: Seq<char>) -> bool {
    forall|i: int| 0 <= i < s.len() ==> is_digit(#[trigger] s[i])
}

/// The number that the digits `s` write in base ten; 0 for no digits.
pub open spec fn decimal(s: Seq<char>) -> nat
    decreases s.len(),
{
    if s.len() == 0 {
        0
    } else {
        10 * decimal(s.drop_last()) + digit_value(s.last())
    }
}

/// The line without the line end that closes it: a line feed, or a carriage
/// return and a line feed.
pub open spec fn strip_line_end(line: Seq<char>) -> Seq<char> {
    if line.len() > 0 && line.last() == '\n' {
        let rest = line.drop_last();
        if rest.len() > 0 && rest.last() == '\r' {
            rest.drop_last()
        } else {
            rest
        }
    } else {
        line
    }
}

/// The text without the plus sign that may stand before a number.
pub open spec fn without_sign(text: Seq<char>) -> Seq<char> {
    if text.len() > 0 && text[0] == '+' {
        text.skip(1)
    } else {
        text
    }
}

/// The number that a line holds: what is left of the line without its line
/// end and without a leading plus sign must be one or more decimal digits
/// and nothing else.
pub open spec fn number_in(line: Seq<char>) -> Option<nat> {
    let digits = without_sign(strip_line_end(line));
    if digits.len() > 0 && all_digits(digits) {
        Some(decimal(digits))
    } else {
        None
    }
}

/// What `parse_move` makes of a line: its number where it holds one that
/// fits in a `usize`, and an error for every other line.
pub open spec fn parsed(line: Seq<char>) -> Result<usize, ParseError> {
    match number_in(line) {
        Some(v) if v <= usize::MAX => Ok(v as usize),
        _ => Err(ParseError),
    }
}

/// A number in base ten is at least as large as each of its beginnings.
pub proof fn lemma_decimal_grows(s: Seq<char>, n: int)
    requires
        0 <= n <= s.len(),
    ensures
        decimal(s.take(n)) <= decimal(s),
    decreases s.len() - n,
{
    if n == s.len() {
        assert(s.take(n) =~= s);
    } else {
        lemma_decimal_grows(s, n + 1);
        lemma_decimal_step(s, n);
    }
}

/// One digit more: ten times the number so far, plus the digit.
pub proof fn lemma_decimal_step(s: Seq<char>, n: int)
    requires
        0 <= n < s.len(),
    ensures
        decimal(s.take(n + 1)) == 10 * decimal(s.take(n)) + digit_value(s[n]),
{
    assert(s.take(n + 1).drop_last() =~= s.take(n));
}

/// A line with a character outside ASCII holds no number.
proof fn lemma_number_is_ascii(line: Seq<char>)
    requires
        number_in(line) is Some,
    ensures
        vstd::utf8::is_ascii_chars(line),
{
    let stripped = strip_line_end(line);
    let digits = without_sign(stripped);
    let skipped = stripped.len() - digits.len();
    assert forall|i: int| 0 <= i < line.len() implies '\0' <= #[trigger] line[i] <= '\u{7f}' by {
        if skipped <= i < stripped.len() {
            assert(is_digit(digits[i - skipped]));
        }
    }
}

/// Reads the number of a cell from a line of input. The line end that
/// closes the line is dropped, and what is left must be a number in base
/// ten that fits in a `usize`; a plus sign may stand before it.
pub fn parse_move(raw: &str) -> (r: Result<usize, ParseError>)
    ensures
        r == parsed(raw@),
{
    if !raw.is_ascii() {
        proof {
            if number_in(raw@) is Some {
                lemma_number_is_ascii(raw@);
            }
        }
        return Err(ParseError);
    }
    let bytes = raw.as_bytes();
    proof {
        is_ascii_spec_bytes(raw);
    }
    let mut end: usize = bytes.len();
    if end > 0 && bytes[end - 1] == LINE_FEED {
        end -= 1;
        if end > 0 && bytes[end - 1] == CARRIAGE_RETURN {
            end -= 1;
        }
    }
    let start: usize = if end > 0 && bytes[0] == PLUS_SIGN {
        1
    } else {
        0
    };
    let ghost digits = raw@.subrange(start as int, end as int);
    if start == end {
        return Err(ParseError);
    }
    let mut value: usize = 0;
    let mut i: usize = start;
    while i < end
        invariant
            start <= i <= end <= bytes@.len() == raw@.len(),
            digits == raw@.subrange(start as int, end as int),
            digits == without_sign(strip_line_end(raw@)),
            forall|j: int| 0 <= j < raw@.len() ==> bytes@[j] == raw@[j] as u8,
            vstd::utf8::is_ascii_chars(raw@),
            all_digits(digits.take(i - start)),
            value == decimal(digits.take(i - start)),
        decreases end - i,
    {
        let b = bytes[i];
        let ghost c = raw@[i as int];
        assert(c == digits[i - start]);
        if b < DIGIT_ZERO || b > DIGIT_NINE {
            return Err(ParseError);
        }
        proof {
            lemma_decimal_step(digits, i - start);
            assert(all_digits(digits.take(i - start + 1)));
            lemma_decimal_grows(digits, i - start + 1);
        }
        let d: usize = (b - DIGIT_ZERO) as usize;
        let next = match value.checked_mul(10) {
            Some(tens) => tens.checked_add(d),
            None => None,
        };
        match next {
            Some(v) => {
                value = v;
            },
            None => {
                return Err(ParseError);
            },
        }
        i += 1;
    }
    assert(digits.take(i - start) =~= digits);
    Ok(value)
}

/// Whether an answer to "play again?" declines: it does wherever the
/// letter `n` stands in it.
pub fn declines(answer: &str) -> (no: bool)
    ensures
        no == answer@.contains('n'),
{
    broadcast use vstd::string::axiom_spec_iter;

    let mut no = false;
    let chars = answer.chars();
    for c in it: chars
        invariant
            it.seq() == answer@,
            no == (exists|j: int| 0 <= j < it.index() && answer@[j] == 'n'),
    {
        no = no || c == 'n';
    }
    no
}

} // verus!
