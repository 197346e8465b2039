//! Key presses, as far as the timer tells them apart.

use vstd::prelude::*;

verus! {

/// A pressed key.
#[derive(Copy, Clone, Debug, PartialEq, Eq)]
pub enum Key {
    /// The enter key.
    Enter,
    /// A key that types the one character it holds.
    Character(char),
    /// Any other key.
    Unidentified,
}

/// Whether `c` is one of the ten decimal digits.
pub open spec fn is_digit(c: char) -> bool {
    '0' <= c <= '9'
}

/// The number that the decimal digit `c` stands for.
pub open spec fn digit_value(c: char) -> int {
    c as int - '0' as int
}

/// The number that `c` stands for where it is a decimal digit.
pub fn decimal_digit(c: char) -> (digit: Option<u8>)
    ensures
        digit is Some <==> is_digit(c),
        digit matches Some(d) ==> d == digit_value(c) && d <= 9,
{
    if '0' <= c && c <= '9' {
        Some(((c as u32) - ('0' as u32)) as u8)
    } else {
        None
    }
}

} // verus!
