//! Post identifiers: UUIDs read from and written as text by the `uuid` crate.
use std::str::FromStr;
use vstd::prelude::*;
use vstd::arithmetic::power2::pow2;

verus! {

/// Lower-case hexadecimal digit of a value in `0..16`.
pub open spec fn hex_digit(n: int) -> char {
    if n < 10 {
        (n + 48) as char
    } else {
        (n + 87) as char
    }
}

/// The `i`-th of the 32 hexadecimal digits of `id`, most significant first.
pub open spec fn nibble(id: u128, i: int) -> int {
    (id as int / pow2((4 * (31 - i)) as nat) as int) % 16
}

/// Position among the 32 digits of character `k` of the hyphenated text.
pub open spec fn digit_index(k: int) -> int {
    if k < 8 {
        k
    } else if k < 13 {
        k - 1
    } else if k < 18 {
        k - 2
    } else if k < 23 {
        k - 3
    } else {
        k - 4
    }
}

/// The hyphenated lower-case text of a UUID, `xxxxxxxx-xxxx-xxxx-xxxx-xxxxxxxxxxxx`.
pub open spec fn hyphenated_text(id: u128) -> Seq<char> {
    Seq::new(
        36,
        |k: int|
            if k == 8 || k == 13 || k == 18 || k == 23 {
                '-'
            } else {
                hex_digit(nibble(id, digit_index(k)))
            },
    )
}

/// The 32 lower-case hexadecimal digits of a UUID, most significant first.
pub open spec fn simple_text(id: u128) -> Seq<char> {
    Seq::new(32, |k: int| hex_digit(nibble(id, k)))
}

/// A text with its ASCII capital letters made small; every other character
/// is kept.
pub open spec fn ascii_lower(text: Seq<char>) -> Seq<char> {
    text.map_values(
        |c: char|
            if 65 <= (c as int) <= 90 {
                ((c as int) + 32) as char
            } else {
                c
            },
    )
}

/// A text with its ASCII small letters made capital; every other character
/// is kept.
pub open spec fn ascii_upper(text: Seq<char>) -> Seq<char> {
    text.map_values(
        |c: char|
            if 97 <= (c as int) <= 122 {
                ((c as int) - 32) as char
            } else {
                c
            },
    )
}

/// Whether the lower-case text `text` is one of the four forms of the UUID
/// `id`: simple, hyphenated, braced (`{hyphenated}`) or URN
/// (`urn:uuid:hyphenated`).
pub open spec fn names_uuid(text: Seq<char>, id: u128) -> bool {
    ||| text == simple_text(id)
    ||| text == hyphenated_text(id)
    ||| text == seq!['{'] + hyphenated_text(id) + seq!['}']
    ||| text == seq!['u', 'r', 'n', ':', 'u', 'u', 'i', 'd', ':'] + hyphenated_text(id)
}

/// What `uuid::Uuid::from_str` makes of a text: the 128-bit value of the UUID
/// it denotes, or `None` when the text is not a UUID.
pub uninterp spec fn uuid_parse(text: Seq<char>) -> Option<u128>;

/// Calls `uuid::Uuid::from_str` and gives back the value of the parsed UUID.
/// Trusted: the result is `uuid_parse` of the text. The text parses exactly
/// when, with its ASCII letters made small, it is the simple, hyphenated,
/// braced or URN form of a UUID, and then to that UUID: the parser takes
/// inputs of 32, 36, 38 or 45 bytes only, reads hexadecimal digits in either
/// case and the `urn:uuid:` prefix without regard to case, and rejects any
/// other character.
#[verifier::external_body]
pub(crate) fn parse_uuid(text: &str) -> (parsed: Option<u128>)
    ensures
        parsed == uuid_parse(text@),
        forall|id: u128| #[trigger] names_uuid(ascii_lower(text@), id) ==> parsed == Some(id),
        parsed matches Some(id) ==> names_uuid(ascii_lower(text@), id),
{
    match uuid::Uuid::from_str(text) {
        Ok(id) => Some(id.as_u128()),
        Err(_) => None,
    }
}

/// Calls `to_string` on `uuid::Uuid::from_u128(id)`.
/// Trusted: the text is the hyphenated lower-case form of the UUID, and
/// `uuid::Uuid::from_str` reads that text back as the same UUID.
#[verifier::external_body]
pub(crate) fn uuid_to_string(id: u128) -> (text: String)
    ensures
        text@ == hyphenated_text(id),
        uuid_parse(text@) == Some(id),
{
    uuid::Uuid::from_u128(id).to_string()
}

} // verus!
