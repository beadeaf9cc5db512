//! Identifiers: generation of fresh 128-bit tokens and their canonical
//! text form (lowercase hexadecimal in five hyphen-separated groups of
//! 8, 4, 4, 4 and 12 digits, most significant digit first).

use vstd::prelude::*;

verus! {

/// The lowercase hexadecimal digit for a value in `0..16`.
pub open spec fn hex_digit(n: int) -> char {
    if n == 0 {
        '0'
    } else if n == 1 {
        '1'
    } else if n == 2 {
        '2'
    } else if n == 3 {
        '3'
    } else if n == 4 {
        '4'
    } else if n == 5 {
        '5'
    } else if n == 6 {
        '6'
    } else if n == 7 {
        '7'
    } else if n == 8 {
        '8'
    } else if n == 9 {
        '9'
    } else if n == 10 {
        'a'
    } else if n == 11 {
        'b'
    } else if n == 12 {
        'c'
    } else if n == 13 {
        'd'
    } else if n == 14 {
        'e'
    } else {
        'f'
    }
}

/// The `k`-th hexadecimal digit of `id`, most significant first, for `k`
/// in `0..32`.
pub open spec fn nibble_of(id: u128, k: int) -> int {
    ((id >> (((31 - k) * 4) as u128)) & 0xf) as int
}

/// The character at position `j` of the canonical 36-character text of
/// `id`: a hyphen at positions 8, 13, 18 and 23, a hexadecimal digit
/// everywhere else.
pub open spec fn id_char(id: u128, j: int) -> char {
    if j == 8 || j == 13 || j == 18 || j == 23 {
        '-'
    } else {
        let k = if j < 8 {
            j
        } else if j < 13 {
            j - 1
        } else if j < 18 {
            j - 2
        } else if j < 23 {
            j - 3
        } else {
            j - 4
        };
        hex_digit(nibble_of(id, k))
    }
}

/// The canonical text of an identifier: 36 characters, hyphenated
/// lowercase hexadecimal, most significant digit first.
pub open spec fn id_text_of(id: u128) -> Seq<char> {
    Seq::new(36, |j: int| id_char(id, j))
}

/// Relies on uuid::Uuid::new_v4, read back through Uuid::as_u128: a freshly
/// generated random 128-bit identifier. Randomness promises nothing about
/// the value, so nothing is stated of it.
#[verifier::external_body]
pub(crate) fn fresh_id() -> u128 {
    uuid::Uuid::new_v4().as_u128()
}

/// Relies on uuid::Uuid::from_u128 and the Display impl of uuid::Uuid:
/// from_u128 stores the value's big-endian bytes, and Display renders those
/// bytes as lowercase hexadecimal digits, most significant first, with
/// hyphens after the 8th, 12th, 16th and 20th digit.
#[verifier::external_body]
pub(crate) fn id_text(id: u128) -> (r: String)
    ensures
        r@ == id_text_of(id),
{
    uuid::Uuid::from_u128(id).to_string()
}

} // verus!
