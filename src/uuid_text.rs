//! The hyphenated text form of a 128-bit UUID.

use vstd::prelude::*;

verus! {

/// Value of an ASCII hexadecimal digit (either case).
pub open spec fn hex_digit_value(c: char) -> int {
    if '0' <= c && c <= '9' {
        c as int - '0' as int
    } else if 'a' <= c && c <= 'f' {
        c as int - 'a' as int + 10
    } else {
        c as int - 'A' as int + 10
    }
}

pub open spec fn is_hex_digit(c: char) -> bool {
    ('0' <= c && c <= '9') || ('a' <= c && c <= 'f') || ('A' <= c && c <= 'F')
}

/// The number written by a string of hexadecimal digits, most significant first.
pub open spec fn hex_value(d: Seq<char>) -> int
    decreases d.len(),
{
    if d.len() == 0 {
        0
    } else {
        hex_value(d.drop_last()) * 16 + hex_digit_value(d.last())
    }
}

pub open spec fn is_hyphen_position(i: int) -> bool {
    i == 8 || i == 13 || i == 18 || i == 23
}

/// `8-4-4-4-12` hexadecimal digits separated by hyphens.
pub open spec fn is_hyphenated_uuid(s: Seq<char>) -> bool {
    &&& s.len() == 36
    &&& forall|i: int| 0 <= i < 36 && is_hyphen_position(i) ==> s[i] == '-'
    &&& forall|i: int| 0 <= i < 36 && !is_hyphen_position(i) ==> is_hex_digit(#[trigger] s[i])
}

/// The 32 digits of a hyphenated UUID, hyphens removed.
pub open spec fn uuid_digits(s: Seq<char>) -> Seq<char> {
    s.remove(23).remove(18).remove(13).remove(8)
}

/// The 128-bit value that a hyphenated UUID denotes, first digit most significant.
pub open spec fn hyphenated_value(s: Seq<char>) -> int {
    hex_value(uuid_digits(s))
}

/// Relies on uuid::Uuid::parse_str, which accepts the hyphenated form and
/// reads its 32 digits as 16 big-endian bytes, and on Uuid::as_u128, which
/// returns those bytes as a big-endian integer.
#[verifier::external_body]
pub(crate) fn parse_uuid(s: &str) -> (r: Option<u128>)
    ensures
        is_hyphenated_uuid(s@) ==> r == Some(hyphenated_value(s@) as u128),
{
    match uuid::Uuid::parse_str(s) {
        Ok(u) => Some(u.as_u128()),
        Err(_) => None,
    }
}

} // verus!
