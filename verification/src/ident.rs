//! Identifiers that the comment core issues itself: random UUIDs, known
//! before the store has seen the row.

use vstd::prelude::*;

verus! {

/// The bits that mark a UUID as random: version 4 in the high nibble of
/// octet 6, and the RFC variant in the two high bits of octet 8.
pub open spec fn is_random_uuid(id: u128) -> bool {
    id & 0x0000_0000_0000_f000_c000_0000_0000_0000u128
        == 0x0000_0000_0000_4000_8000_0000_0000_0000u128
}

/// `uuid::Uuid::new_v4`, read through `Uuid::as_u128`. Claimed: the version
/// and variant bits are those of a random UUID; the other 122 bits are
/// whatever the operating system's generator gave.
#[verifier::external_body]
pub(crate) fn random_uuid() -> (id: u128)
    ensures
        is_random_uuid(id),
{
    uuid::Uuid::new_v4().as_u128()
}

/// The lower-case hexadecimal digit of a value below sixteen.
pub open spec fn hex_char(n: u128) -> char {
    if n == 0 {
        '0'
    } else if n == 1 {
        '1'
    } else if n == 2 {
        '2'
    } else if n == 3 {
        '3'
    } else if n == 4 {
        '4'
    } else if n == 5 {
        '5'
    } else if n == 6 {
        '6'
    } else if n == 7 {
        '7'
    } else if n == 8 {
        '8'
    } else if n == 9 {
        '9'
    } else if n == 10 {
        'a'
    } else if n == 11 {
        'b'
    } else if n == 12 {
        'c'
    } else if n == 13 {
        'd'
    } else if n == 14 {
        'e'
    } else {
        'f'
    }
}

/// The `k`-th group of four bits of a UUID, counted from the most
/// significant, for `k` from 0 to 31.
pub open spec fn uuid_nibble(id: u128, k: int) -> u128 {
    (id >> ((4 * (31 - k)) as u128)) & 0xf
}

/// How many hyphens stand before position `i` of the hyphenated form.
pub open spec fn hyphens_before(i: int) -> int {
    if i < 8 {
        0
    } else if i < 13 {
        1
    } else if i < 18 {
        2
    } else if i < 23 {
        3
    } else {
        4
    }
}

/// The hyphenated form of a UUID: thirty-two lower-case hexadecimal digits,
/// most significant first, in groups of 8, 4, 4, 4 and 12.
pub open spec fn hyphenated(id: u128) -> Seq<char> {
    Seq::new(
        36,
        |i: int|
            if i == 8 || i == 13 || i == 18 || i == 23 {
                '-'
            } else {
                hex_char(uuid_nibble(id, i - hyphens_before(i)))
            },
    )
}

/// `Uuid::to_string` on the UUID that `Uuid::from_u128` makes of the bits,
/// which is the crate's lower-case hyphenated form. Claimed: the text is
/// exactly [`hyphenated`].
#[verifier::external_body]
pub(crate) fn uuid_text(id: u128) -> (text: String)
    ensures
        text@ == hyphenated(id),
{
    uuid::Uuid::from_u128(id).to_string()
}

/// Whether `id` carries the marks of a random UUID.
pub fn has_random_marks(id: u128) -> (b: bool)
    ensures
        b == is_random_uuid(id),
{
    id & 0x0000_0000_0000_f000_c000_0000_0000_0000u128
        == 0x0000_0000_0000_4000_8000_0000_0000_0000u128
}

} // verus!
