//! Identifiers and their text.

use vstd::prelude::*;

verus! {

/// A 128-bit identifier; its most significant digit is written first.
#[derive(Clone, Copy, PartialEq, Eq, Structural, Debug, Hash)]
pub struct Uuid {
    pub bits: u128,
}

impl DeepView for Uuid {
    type V = Uuid;

    open spec fn deep_view(&self) -> Uuid {
        *self
    }
}

/// The lower-case hexadecimal digit of value `value`.
pub open spec fn hex_digit(value: int) -> char {
    if value < 10 {
        ('0' as int + value) as char
    } else {
        ('a' as int + value - 10) as char
    }
}

/// The hexadecimal digit of weight 16 to the power of `place`.
pub open spec fn hex_place(bits: u128, place: nat) -> int
    decreases place,
{
    if place == 0 {
        bits as int % 16
    } else {
        hex_place((bits / 16) as u128, (place - 1) as nat)
    }
}

/// The hyphenated text of an identifier: thirty-two digits in groups of 8, 4, 4, 4 and 12.
pub open spec fn uuid_text(id: Uuid) -> Seq<char> {
    Seq::new(
        36,
        |i: int|
            if i == 8 || i == 13 || i == 18 || i == 23 {
                '-'
            } else if i < 8 {
                hex_digit(hex_place(id.bits, (31 - i) as nat))
            } else if i < 13 {
                hex_digit(hex_place(id.bits, (32 - i) as nat))
            } else if i < 18 {
                hex_digit(hex_place(id.bits, (33 - i) as nat))
            } else if i < 23 {
                hex_digit(hex_place(id.bits, (34 - i) as nat))
            } else {
                hex_digit(hex_place(id.bits, (35 - i) as nat))
            },
    )
}

/// `Display` of `uuid::Uuid`, on the value that `uuid::Uuid::from_u128` makes: the hyphenated text
/// in lower case.
#[verifier::external_body]
pub(crate) fn uuid_to_string(id: Uuid) -> (text: String)
    ensures
        text@ == uuid_text(id),
{
    uuid::Uuid::from_u128(id.bits).to_string()
}

} // verus!
