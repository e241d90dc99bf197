//! Text forms of the UUIDs that identify persisted records.

use vstd::prelude::*;

verus! {

/// What `uuid::Uuid::parse_str` gives for a text: the 128-bit value of the
/// UUID written in it (simple, hyphenated, braced or URN form), or nothing.
pub uninterp spec fn uuid_parse(text: Seq<char>) -> Option<u128>;

pub open spec fn hex_lower(n: u128) -> char {
    if n < 10 {
        ((n + 48) as u8) as char
    } else {
        ((n + 87) as u8) as char
    }
}

/// The `k`-th hexadecimal digit of `v`, most significant first.
pub open spec fn nibble(v: u128, k: int) -> u128 {
    (v >> ((124 - 4 * k) as u128)) & 15u128
}

pub open spec fn nibble_index(i: int) -> int {
    if i < 8 {
        i
    } else if i < 13 {
        i - 1
    } else if i < 18 {
        i - 2
    } else if i < 23 {
        i - 3
    } else {
        i - 4
    }
}

/// The lower-case hyphenated form, `xxxxxxxx-xxxx-xxxx-xxxx-xxxxxxxxxxxx`.
pub open spec fn uuid_hyphenated(v: u128) -> Seq<char> {
    Seq::new(
        36,
        |i: int|
            if i == 8 || i == 13 || i == 18 || i == 23 {
                '-'
            } else {
                hex_lower(nibble(v, nibble_index(i)))
            },
    )
}

/// `uuid::Uuid::from_u128(v).to_string()`: the uuid crate displays a UUID
/// in its lower-case hyphenated form, which `Uuid::parse_str` reads back.
#[verifier::external_body]
pub(crate) fn uuid_to_string(v: u128) -> (r: String)
    ensures
        r@ == uuid_hyphenated(v),
        uuid_parse(r@) == Some(v),
{
    uuid::Uuid::from_u128(v).to_string()
}

/// `uuid::Uuid::parse_str(text)`, as the 128-bit value of the UUID.
#[verifier::external_body]
pub(crate) fn uuid_parse_str(text: &str) -> (r: Option<u128>)
    ensures
        r == uuid_parse(text@),
{
    uuid::Uuid::parse_str(text).ok().map(|u| u.as_u128())
}

} // verus!
