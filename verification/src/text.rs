//! Building text: characters, conditional pieces and hexadecimal numbers.

use vstd::prelude::*;
use vstd::string::*;
use crate::helper::{high, low, spec_high, spec_low};

verus! {

/// Appends one character to a string. The body is `String::push` of the
/// standard library; that the text afterwards is the text before with `c`
/// at its end is taken on trust from its documentation, not proved.
#[verifier::external_body]
pub(crate) fn push_char(text: &mut String, c: char)
    ensures
        final(text)@ == old(text)@.push(c),
{
    text.push(c);
}

/// Appends `piece` to `text` if `condition` holds.
pub fn append_if(text: &mut String, condition: bool, piece: &str)
    ensures
        final(text)@ == old(text)@ + spec_piece_if(condition, piece@),
{
    if condition {
        text.append(piece);
    } else {
        assert(text@ + Seq::<char>::empty() =~= text@);
    }
}

/// `piece` if `condition` holds, and nothing if not.
pub open spec fn spec_piece_if(condition: bool, piece: Seq<char>) -> Seq<char> {
    if condition {
        piece
    } else {
        Seq::empty()
    }
}

/// The digit, `0` to `9` and `A` to `F`, for a number below sixteen.
pub open spec fn spec_hex_digit(n: u8) -> char {
    if n < 10 {
        (48 + n) as char
    } else {
        (55 + n) as char
    }
}

#[verifier::when_used_as_spec(spec_hex_digit)]
pub fn hex_digit(n: u8) -> (digit: char)
    requires
        n < 16,
    ensures
        digit == spec_hex_digit(n),
{
    if n < 10 {
        (48 + n) as char
    } else {
        (55 + n) as char
    }
}

/// A byte as two hexadecimal digits.
pub open spec fn hex_byte(value: u8) -> Seq<char> {
    seq![spec_hex_digit(value / 16), spec_hex_digit(value % 16)]
}

/// A word as four hexadecimal digits.
pub open spec fn hex_word(value: u16) -> Seq<char> {
    hex_byte(spec_high(value)) + hex_byte(spec_low(value))
}

/// Appends `value` as two hexadecimal digits.
pub fn push_hex_byte(text: &mut String, value: u8)
    ensures
        final(text)@ == old(text)@ + hex_byte(value),
{
    push_char(text, hex_digit(value / 16));
    push_char(text, hex_digit(value % 16));
    assert(text@ =~= old(text)@ + hex_byte(value));
}

/// Appends `value` as four hexadecimal digits.
pub fn push_hex_word(text: &mut String, value: u16)
    ensures
        final(text)@ == old(text)@ + hex_word(value),
{
    push_hex_byte(text, high(value));
    push_hex_byte(text, low(value));
    assert(text@ =~= old(text)@ + hex_word(value));
}

} // verus!
