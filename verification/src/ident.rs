//! Generated identifiers.
//!
//! A guestbook entry is identified by a random UUID. The library holds the
//! identifier as the 128-bit number that the UUID stands for, which is what
//! entries are compared and found by; `uuid` generates, writes and reads it.

use vstd::prelude::*;

verus! {

/// Sixteen to the power of `n`.
pub open spec fn pow16(n: nat) -> nat
    decreases n,
{
    if n == 0 {
        1
    } else {
        16 * pow16((n - 1) as nat)
    }
}

/// The lower-case hexadecimal digit for a value below sixteen.
pub open spec fn hex_digit(v: int) -> char {
    if v < 10 {
        (('0' as u8) + v) as u8 as char
    } else {
        (('a' as u8) + (v - 10)) as u8 as char
    }
}

/// The hyphenated text of an identifier: its 32 hexadecimal digits, most
/// significant first, in groups of 8, 4, 4, 4 and 12 with a hyphen between
/// the groups.
pub open spec fn hyphenated(id: u128) -> Seq<char> {
    Seq::new(
        36,
        |i: int|
            if i == 8 || i == 13 || i == 18 || i == 23 {
                '-'
            } else {
                let d = if i < 8 {
                    i
                } else if i < 13 {
                    i - 1
                } else if i < 18 {
                    i - 2
                } else if i < 23 {
                    i - 3
                } else {
                    i - 4
                };
                hex_digit((id as int / pow16((31 - d) as nat) as int) % 16)
            },
    )
}

/// The identifier that `uuid` reads from a text, or `None` where it rejects
/// the text.
pub uninterp spec fn parsed_id(text: Seq<char>) -> Option<u128>;

/// Whether a number has the version and variant bits of a random UUID.
pub open spec fn is_random_id(id: u128) -> bool {
    id & 0x0000_0000_0000_f000_c000_0000_0000_0000u128 == 0x0000_0000_0000_4000_8000_0000_0000_0000u128
}

/// Draws a random identifier with `uuid::Uuid::new_v4`.
///
/// Two calls may differ. Whatever comes back carries version 4 and the
/// RFC 4122 variant, which `new_v4` sets by masking.
#[verifier::external_body]
pub(crate) fn fresh_id() -> (id: u128)
    ensures
        is_random_id(id),
{
    uuid::Uuid::new_v4().as_u128()
}

/// Writes an identifier as `uuid::Uuid::hyphenated` does: lower-case
/// hexadecimal digits in the grouping 8-4-4-4-12.
#[verifier::external_body]
pub(crate) fn id_text(id: u128) -> (text: String)
    ensures
        text@ == hyphenated(id),
{
    uuid::Uuid::from_u128(id).hyphenated().to_string()
}

/// Reads an identifier with `uuid::Uuid::parse_str`, which accepts the
/// simple, hyphenated, URN and braced forms. The contract only names the
/// result.
#[verifier::external_body]
pub(crate) fn parse_id(text: &str) -> (id: Option<u128>)
    ensures
        id == parsed_id(text@),
{
    match uuid::Uuid::parse_str(text) {
        Ok(u) => Some(u.as_u128()),
        Err(_) => None,
    }
}

/// Reads the identifier of an entry from the text of a UUID, in any of the
/// forms that UUIDs are written in.
pub fn read_id(text: &str) -> (id: Option<u128>)
    ensures
        id == parsed_id(text@),
{
    parse_id(text)
}

/// Writes an identifier as a hyphenated UUID.
pub fn write_id(id: u128) -> (text: String)
    ensures
        text@ == hyphenated(id),
{
    id_text(id)
}

} // verus!
