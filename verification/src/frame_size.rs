//! The size of a binary frame, as configured in decimal text.

use vstd::prelude::*;
use crate::text::chars_of;

verus! {

/// Why a configured frame size was turned down.
#[derive(Debug, Clone, Copy, PartialEq, Eq)]
pub enum FrameSizeError {
    /// The text is empty.
    Empty,
    /// The text holds something other than decimal digits after an optional
    /// leading plus sign, or holds no digit at all.
    InvalidDigit,
    /// The number does not fit in `usize`.
    TooLarge,
    /// The number is zero: a frame holds at least one byte.
    Zero,
}

/// Whether `c` is one of the ten ASCII digits.
pub open spec fn is_digit(c: char) -> bool {
    0x30 <= c as u32 <= 0x39
}

/// Whether `s` holds ASCII digits only.
pub open spec fn all_digits(s: Seq<char>) -> bool {
    forall|i: int| 0 <= i < s.len() ==> is_digit(#[trigger] s[i])
}

/// The number that the digits `s` write in base ten; 0 for no digits.
pub open spec fn decimal(s: Seq<char>) -> nat
    decreases s.len(),
{
    if s.len() == 0 {
        0
    } else {
        (decimal(s.drop_last()) * 10 + (s.last() as u32 - 0x30)) as nat
    }
}

/// `s` without its leading plus sign, if it has one.
pub open spec fn unsigned_part(s: Seq<char>) -> Seq<char> {
    if s.len() > 0 && s[0] == '+' {
        s.drop_first()
    } else {
        s
    }
}

/// The frame size that the text `s` configures, or why it configures none.
pub open spec fn frame_size_of(s: Seq<char>) -> Result<nat, FrameSizeError> {
    let digits = unsigned_part(s);
    if s.len() == 0 {
        Err(FrameSizeError::Empty)
    } else if digits.len() == 0 || !all_digits(digits) {
        Err(FrameSizeError::InvalidDigit)
    } else if decimal(digits) > usize::MAX {
        Err(FrameSizeError::TooLarge)
    } else if decimal(digits) == 0 {
        Err(FrameSizeError::Zero)
    } else {
        Ok(decimal(digits))
    }
}

/// A number written in digits is at least the number that any prefix of the
/// digits writes.
proof fn lemma_decimal_prefix(s: Seq<char>, k: int)
    requires
        all_digits(s),
        0 <= k <= s.len(),
    ensures
        decimal(s.take(k)) <= decimal(s),
    decreases s.len() - k,
{
    if k == s.len() {
        assert(s.take(k) =~= s);
    } else {
        lemma_decimal_prefix(s, k + 1);
        let longer = s.take(k + 1);
        assert(longer.drop_last() =~= s.take(k));
        assert(is_digit(s[k]));
        assert(longer.last() == s[k]);
    }
}

/// Reads a frame size from its configured text: an optional plus sign and
/// then decimal digits that write a positive number within `usize`.
pub fn parse_frame_size(text: &str) -> (size: Result<usize, FrameSizeError>)
    ensures
        match frame_size_of(text@) {
            Ok(n) => size == Ok::<usize, FrameSizeError>(n as usize),
            Err(e) => size == Err::<usize, FrameSizeError>(e),
        },
{
    let chars = chars_of(text);
    if chars.len() == 0 {
        return Err(FrameSizeError::Empty);
    }
    let start: usize = if chars[0] == '+' {
        1
    } else {
        0
    };
    let ghost digits = unsigned_part(text@);
    assert(digits =~= chars@.subrange(start as int, chars.len() as int));
    if start == chars.len() {
        return Err(FrameSizeError::InvalidDigit);
    }
    let mut i: usize = start;
    while i < chars.len()
        invariant
            start <= i <= chars.len(),
            start < chars.len(),
            chars@ == text@,
            digits == unsigned_part(text@),
            digits == chars@.subrange(start as int, chars.len() as int),
            forall|j: int| 0 <= j < i - start ==> is_digit(#[trigger] digits[j]),
        decreases chars.len() - i,
    {
        let u: u32 = chars[i] as u32;
        assert(digits[i - start] == chars@[i as int]);
        if u < 0x30 || u > 0x39 {
            return Err(FrameSizeError::InvalidDigit);
        }
        i += 1;
    }
    assert(all_digits(digits));
    let mut value: usize = 0;
    let mut k: usize = start;
    while k < chars.len()
        invariant
            start <= k <= chars.len(),
            start < chars.len(),
            chars@ == text@,
            digits == unsigned_part(text@),
            digits == chars@.subrange(start as int, chars.len() as int),
            all_digits(digits),
            value == decimal(digits.take(k - start)),
        decreases chars.len() - k,
    {
        proof {
            let longer = digits.take(k - start + 1);
            assert(longer.drop_last() =~= digits.take(k - start));
            assert(longer.last() == chars@[k as int]);
            assert(is_digit(digits[k - start]));
            assert(decimal(longer) == value * 10 + (chars@[k as int] as u32 - 0x30));
            lemma_decimal_prefix(digits, k - start + 1);
        }
        let digit: usize = (chars[k] as u32 - 0x30) as usize;
        let scaled = match value.checked_mul(10) {
            Some(scaled) => scaled,
            None => {
                return Err(FrameSizeError::TooLarge);
            },
        };
        value = match scaled.checked_add(digit) {
            Some(sum) => sum,
            None => {
                return Err(FrameSizeError::TooLarge);
            },
        };
        k += 1;
    }
    assert(digits.take(digits.len() as int) =~= digits);
    if value == 0 {
        Err(FrameSizeError::Zero)
    } else {
        Ok(value)
    }
}

} // verus!
