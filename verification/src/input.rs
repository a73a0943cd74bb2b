//! Validation of one line of raw input: trim surrounding whitespace, enforce
//! the length cap, parse a decimal number, and check it against the guessing
//! range. Rejection is classified so that callers can report why a line was
//! turned away.

use vstd::prelude::*;
use crate::config::GameConfig;

verus! {

/// Why a line of input was turned away instead of being counted as a guess.
#[derive(Clone, Copy, Debug, PartialEq, Eq, Structural)]
pub enum InputError {
    /// The line could not be read at all.
    ReadFailed,
    /// The trimmed line is longer than the configured cap.
    TooLong,
    /// The trimmed line is not a decimal number that fits in a `u32`.
    NonNumeric,
    /// The number lies outside the guessing range.
    OutOfRange,
}

/// ASCII whitespace: space, tab, line feed, vertical tab, form feed, carriage
/// return.
pub open spec fn is_ascii_space(b: u8) -> bool {
    b == 32 || (9 <= b && b <= 13)
}

/// `s` with its leading whitespace removed.
pub open spec fn trim_front(s: Seq<u8>) -> Seq<u8>
    decreases s.len(),
{
    if s.len() > 0 && is_ascii_space(s[0]) {
        trim_front(s.drop_first())
    } else {
        s
    }
}

/// `s` with its trailing whitespace removed.
pub open spec fn trim_back(s: Seq<u8>) -> Seq<u8>
    decreases s.len(),
{
    if s.len() > 0 && is_ascii_space(s.last()) {
        trim_back(s.drop_last())
    } else {
        s
    }
}

/// `s` with whitespace removed from both ends.
pub open spec fn spec_trim(s: Seq<u8>) -> Seq<u8> {
    trim_back(trim_front(s))
}

pub open spec fn is_ascii_digit(b: u8) -> bool {
    48 <= b && b <= 57
}

pub open spec fn all_digits(s: Seq<u8>) -> bool {
    forall|i: int| 0 <= i < s.len() ==> is_ascii_digit(s[i])
}

/// The numeric value of one digit byte (meaningful when `is_ascii_digit(b)`).
pub open spec fn digit_value(b: u8) -> nat {
    (b - 48) as nat
}

/// The value of a run of digit bytes read as a decimal numeral, most
/// significant digit first.
pub open spec fn digits_value(s: Seq<u8>) -> nat
    decreases s.len(),
{
    if s.len() == 0 {
        0
    } else {
        10 * digits_value(s.drop_last()) + digit_value(s.last())
    }
}

/// A single leading `+` sign is accepted before the digits.
pub open spec fn strip_plus(s: Seq<u8>) -> Seq<u8> {
    if s.len() > 0 && s[0] == 43 {
        s.drop_first()
    } else {
        s
    }
}

/// What parsing an unsigned decimal number from `s` yields: `Some` exactly
/// when, after an optional `+` sign, `s` is one or more digits whose value
/// fits in a `u32`.
pub open spec fn spec_parse_u32(s: Seq<u8>) -> Option<u32> {
    let d = strip_plus(s);
    if d.len() > 0 && all_digits(d) && digits_value(d) <= u32::MAX {
        Some(digits_value(d) as u32)
    } else {
        None
    }
}

/// How one raw line fares under the configuration: the length cap is applied
/// to the trimmed line before parsing, and a parsed number must lie within
/// the guessing range.
pub open spec fn spec_validate(config: GameConfig, raw: Seq<u8>) -> Result<u32, InputError> {
    let t = spec_trim(raw);
    if t.len() > config.max_input_len {
        Err(InputError::TooLong)
    } else {
        match spec_parse_u32(t) {
            None => Err(InputError::NonNumeric),
            Some(v) => if config.low <= v && v <= config.high {
                Ok(v)
            } else {
                Err(InputError::OutOfRange)
            },
        }
    }
}

proof fn lemma_trim_front_is_skip(s: Seq<u8>, i: int)
    requires
        0 <= i <= s.len(),
        forall|j: int| 0 <= j < i ==> is_ascii_space(s[j]),
        i == s.len() || !is_ascii_space(s[i]),
    ensures
        trim_front(s) == s.skip(i),
    decreases i,
{
    if i == 0 {
        assert(s.skip(0) =~= s);
    } else {
        let rest = s.drop_first();
        assert(forall|j: int| 0 <= j < i - 1 ==> is_ascii_space(rest[j]));
        lemma_trim_front_is_skip(rest, i - 1);
        assert(rest.skip(i - 1) =~= s.skip(i));
    }
}

proof fn lemma_trim_back_is_take(s: Seq<u8>, i: int)
    requires
        0 <= i <= s.len(),
        forall|j: int| i <= j < s.len() ==> is_ascii_space(s[j]),
        i == 0 || !is_ascii_space(s[i - 1]),
    ensures
        trim_back(s) == s.take(i),
    decreases s.len() - i,
{
    if i == s.len() {
        assert(s.take(i) =~= s);
    } else {
        let front = s.drop_last();
        assert(is_ascii_space(s.last()));
        assert(forall|j: int| i <= j < front.len() ==> is_ascii_space(front[j]));
        lemma_trim_back_is_take(front, i);
        assert(front.take(i) =~= s.take(i));
    }
}

fn is_space_byte(b: u8) -> (r: bool)
    ensures
        r == is_ascii_space(b),
{
    b == 32 || (9 <= b && b <= 13)
}

/// Copy of `raw` with ASCII whitespace removed from both ends.
pub fn trim_ascii(raw: &[u8]) -> (r: Vec<u8>)
    ensures
        r@ == spec_trim(raw@),
{
    let len = raw.len();
    let mut start: usize = 0;
    while start < len && is_space_byte(raw[start])
        invariant
            len == raw@.len(),
            0 <= start <= len,
            forall|j: int| 0 <= j < start ==> is_ascii_space(raw@[j]),
        decreases len - start,
    {
        start = start + 1;
    }
    proof {
        lemma_trim_front_is_skip(raw@, start as int);
    }
    let ghost t = raw@.skip(start as int);
    let mut end: usize = len;
    while end > start && is_space_byte(raw[end - 1])
        invariant
            len == raw@.len(),
            start <= end <= len,
            forall|j: int| end <= j < len ==> is_ascii_space(raw@[j]),
        decreases end,
    {
        end = end - 1;
    }
    proof {
        assert(forall|j: int| end - start <= j < t.len() ==> is_ascii_space(t[j]));
        lemma_trim_back_is_take(t, end - start);
        assert(t.take(end - start) =~= raw@.subrange(start as int, end as int));
    }
    let mut out: Vec<u8> = Vec::new();
    let mut i: usize = start;
    while i < end
        invariant
            len == raw@.len(),
            start <= i <= end <= len,
            out@ == raw@.subrange(start as int, i as int),
        decreases end - i,
    {
        out.push(raw[i]);
        i = i + 1;
        proof {
            assert(out@ =~= raw@.subrange(start as int, i as int));
        }
    }
    out
}

proof fn lemma_digits_value_prefix_le(s: Seq<u8>, i: int)
    requires
        0 <= i <= s.len(),
    ensures
        digits_value(s.take(i)) <= digits_value(s),
    decreases s.len(),
{
    if i == s.len() {
        assert(s.take(i) =~= s);
    } else {
        let front = s.drop_last();
        lemma_digits_value_prefix_le(front, i);
        assert(front.take(i) =~= s.take(i));
    }
}

/// Parse a trimmed line as an unsigned decimal number, exactly as
/// `spec_parse_u32` describes: an optional `+` sign, then digits, rejected on
/// any other byte and on overflow past `u32::MAX`.
pub fn parse_u32(s: &[u8]) -> (r: Option<u32>)
    ensures
        r == spec_parse_u32(s@),
{
    let len = s.len();
    let start: usize = if len > 0 && s[0] == 43 {
        1
    } else {
        0
    };
    let ghost d = strip_plus(s@);
    proof {
        assert(d =~= s@.skip(start as int));
    }
    if len == start {
        return None;
    }
    let mut acc: u64 = 0;
    let mut i: usize = start;
    while i < len
        invariant
            len == s@.len(),
            start <= i <= len,
            d == strip_plus(s@),
            d == s@.skip(start as int),
            all_digits(d.take(i - start)),
            acc == digits_value(d.take(i - start)),
            acc <= u32::MAX,
        decreases len - i,
    {
        let b = s[i];
        if b < 48 || b > 57 {
            proof {
                assert(d[i - start] == b);
                assert(!all_digits(d));
            }
            return None;
        }
        let next: u64 = acc * 10 + ((b - 48) as u64);
        proof {
            assert(d.take(i - start + 1).drop_last() =~= d.take(i - start));
            assert(d.take(i - start + 1).last() == b);
            assert(next == digits_value(d.take(i - start + 1)));
        }
        if next > 0xFFFF_FFFF {
            proof {
                lemma_digits_value_prefix_le(d, i - start + 1);
            }
            return None;
        }
        acc = next;
        i = i + 1;
    }
    proof {
        assert(d.take(len - start) =~= d);
    }
    Some(acc as u32)
}

/// Classify one raw line of input against the configuration. The verdict is
/// exactly `spec_validate`: length cap first (on the trimmed line), then
/// numeric parsing, then the range check.
pub fn validate_guess(config: &GameConfig, raw: &[u8]) -> (r: Result<u32, InputError>)
    ensures
        r == spec_validate(*config, raw@),
{
    let t = trim_ascii(raw);
    if t.len() > config.max_input_len {
        return Err(InputError::TooLong);
    }
    match parse_u32(t.as_slice()) {
        None => Err(InputError::NonNumeric),
        Some(v) => if config.low <= v && v <= config.high {
            Ok(v)
        } else {
            Err(InputError::OutOfRange)
        },
    }
}

} // verus!
