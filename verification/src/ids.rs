use vstd::prelude::*;

verus! {

/// The lowercase hexadecimal digit for a value below 16.
pub open spec fn hex_digit(v: u8) -> char {
    if v == 0 {
        '0'
    } else if v == 1 {
        '1'
    } else if v == 2 {
        '2'
    } else if v == 3 {
        '3'
    } else if v == 4 {
        '4'
    } else if v == 5 {
        '5'
    } else if v == 6 {
        '6'
    } else if v == 7 {
        '7'
    } else if v == 8 {
        '8'
    } else if v == 9 {
        '9'
    } else if v == 10 {
        'a'
    } else if v == 11 {
        'b'
    } else if v == 12 {
        'c'
    } else if v == 13 {
        'd'
    } else if v == 14 {
        'e'
    } else {
        'f'
    }
}

/// The value written in lowercase hexadecimal with exactly `digits` digits,
/// most significant digit first; digits beyond `digits` are dropped.
pub open spec fn hex_text(v: u128, digits: nat) -> Seq<char>
    decreases digits,
{
    if digits == 0 {
        Seq::<char>::empty()
    } else {
        hex_text(v / 16, (digits - 1) as nat).push(hex_digit((v % 16) as u8))
    }
}

/// The hyphenated text of a 128-bit identifier: lowercase hexadecimal in
/// groups of 8, 4, 4, 4 and 12 digits, most significant digit first.
pub open spec fn uuid_text(id: u128) -> Seq<char> {
    hex_text((id >> 96) & 0xffff_ffff, 8) + seq!['-'] + hex_text((id >> 80) & 0xffff, 4)
        + seq!['-'] + hex_text((id >> 64) & 0xffff, 4) + seq!['-'] + hex_text(
        (id >> 48) & 0xffff,
        4,
    ) + seq!['-'] + hex_text(id & 0xffff_ffff_ffff, 12)
}

/// Relies on uuid::Uuid::new_v4: a randomly drawn identifier. Nothing is
/// assumed of the value that comes back.
#[verifier::external_body]
pub(crate) fn fresh_id() -> u128 {
    uuid::Uuid::new_v4().as_u128()
}

/// Relies on uuid::Uuid::from_u128, which takes the value in big-endian
/// order, and on the hyphenated Display form: lowercase hexadecimal with
/// hyphens after the 8th, 12th, 16th and 20th digits.
#[verifier::external_body]
pub(crate) fn uuid_hyphenated(id: u128) -> (r: String)
    ensures
        r@ == uuid_text(id),
{
    uuid::Uuid::from_u128(id).hyphenated().to_string()
}

} // verus!
