//! The small-integer codec: numbers from 0 to 255 written as decimal strings.

use crate::decimal::{
    bounded_numeral, decimal_text, lemma_decimal_text, parse_unsigned, render_decimal,
    unsigned_body,
};
use crate::error::ErrorKind;
use crate::text::chars_of;
use vstd::prelude::*;

verus! {

/// The wire form of a small integer: its digits, without zeros in front.
pub open spec fn small_int_text(value: u8) -> Seq<char> {
    decimal_text(value as nat)
}

/// What a wire string denotes as a small integer. The empty string is zero
/// where the field has a default; any other string must be a numeral that
/// denotes 255 at most.
pub open spec fn small_int_of_text(s: Seq<char>, defaulted: bool) -> Result<u8, ErrorKind> {
    if s.len() == 0 && defaulted {
        Ok(0u8)
    } else {
        match bounded_numeral(s, 255) {
            Some(n) => Ok(n as u8),
            None => Err(ErrorKind::MalformedInteger),
        }
    }
}

/// Writes a small integer in decimal. Zero is written `0`, never as the
/// empty string.
pub fn serialize(value: &u8) -> (s: String)
    ensures
        s@ == small_int_text(*value),
{
    render_decimal(*value as u32)
}

/// Reads a small integer from its wire form. The empty string is zero where
/// `defaulted` is set; anything that is no numeral, or denotes more than
/// 255, fails with `MalformedInteger`.
pub fn deserialize(s: &str, defaulted: bool) -> (r: Result<u8, ErrorKind>)
    ensures
        r == small_int_of_text(s@, defaulted),
{
    let chars = chars_of(s);
    let n: usize = chars.len();
    if n == 0 && defaulted {
        return Ok(0);
    }
    assert(chars@.subrange(0, n as int) =~= s@);
    match parse_unsigned(&chars, 0, n, 255) {
        Some(value) => Ok(value as u8),
        None => Err(ErrorKind::MalformedInteger),
    }
}

/// The small integer that stands for "no value": zero.
pub fn empty_value() -> (value: u8)
    ensures
        value == 0,
{
    0
}

/// The small integer is the one that stands for "no value".
pub fn is_empty(value: u8) -> (b: bool)
    ensures
        b == (value == 0),
{
    value == 0
}

/// Reading what was written gives the number back, whether or not the field
/// has a default.
pub proof fn lemma_small_int_round_trip(value: u8, defaulted: bool)
    ensures
        small_int_of_text(small_int_text(value), defaulted) == Ok::<u8, ErrorKind>(value),
{
    lemma_decimal_text(value as nat);
    let text = decimal_text(value as nat);
    assert(crate::decimal::is_digit(text[0]));
    assert(unsigned_body(text) == text);
}

/// The empty string is read as the value that stands for "no value" where
/// the field has a default, and is refused where it has none.
pub proof fn lemma_small_int_absent(defaulted: bool)
    ensures
        defaulted ==> small_int_of_text(Seq::empty(), defaulted) == Ok::<u8, ErrorKind>(0u8),
        !defaulted ==> small_int_of_text(Seq::empty(), defaulted) == Err::<u8, ErrorKind>(
            ErrorKind::MalformedInteger,
        ),
{
    assert(unsigned_body(Seq::<char>::empty()) == Seq::<char>::empty());
}

} // verus!
