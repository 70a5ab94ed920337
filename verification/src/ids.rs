use vstd::prelude::*;

use uuid::Uuid;

verus! {

/// The lower-case hexadecimal digit of a value below 16.
pub open spec fn hex_digit(n: u128) -> char {
    if n < 10 {
        (48 + n) as char
    } else {
        (87 + n) as char
    }
}

/// The `j`-th hexadecimal digit of an id, counting from the most significant.
pub open spec fn nibble(id: u128, j: int) -> u128 {
    (id >> ((4 * (31 - j)) as u128)) & 15
}

/// Which of the 32 digits stands at position `i` of the hyphenated text.
pub open spec fn digit_index(i: int) -> int {
    if i < 8 {
        i
    } else if i < 13 {
        i - 1
    } else if i < 18 {
        i - 2
    } else if i < 23 {
        i - 3
    } else {
        i - 4
    }
}

/// The hyphenated lower-case text of a UUID, as `Uuid`'s `Display` writes it:
/// 32 hexadecimal digits, most significant first, in groups of 8, 4, 4, 4 and
/// 12 separated by hyphens.
pub open spec fn uuid_text(id: u128) -> Seq<char> {
    Seq::new(
        36,
        |i: int|
            if i == 8 || i == 13 || i == 18 || i == 23 {
                '-'
            } else {
                hex_digit(nibble(id, digit_index(i)))
            },
    )
}

/// The UUID that `Uuid::parse_str` reads from a text, if it reads one.
pub uninterp spec fn uuid_parsed(text: Seq<char>) -> Option<u128>;

/// A random (version 4) UUID: its version digit, the 13th hexadecimal digit,
/// is 4, and its variant digit, the 17th, is one of 8, 9, a, b (RFC 4122).
pub open spec fn is_random_uuid(id: u128) -> bool {
    &&& nibble(id, 12) == 4
    &&& 8 <= nibble(id, 16) <= 11
}

/// A fresh random identifier: `Uuid::new_v4`, as its `u128`. Which one is not
/// stated (it is random); `new_v4` masks random bits so that the version is 4
/// and the variant RFC 4122, and that is stated.
#[verifier::external_body]
pub(crate) fn new_id() -> (id: u128)
    ensures
        is_random_uuid(id),
{
    Uuid::new_v4().as_u128()
}

/// `Uuid::from_u128(id).to_string()`: the hyphenated lower-case text
/// (`uuid_text`). The parser reads it back, as the `uuid` crate promises for
/// every format that it writes.
#[verifier::external_body]
pub(crate) fn id_to_text(id: u128) -> (text: String)
    ensures
        text@ == uuid_text(id),
        uuid_parsed(text@) == Some(id),
{
    Uuid::from_u128(id).to_string()
}

/// `Uuid::parse_str(text)`, as a `u128`. The result is named `uuid_parsed`.
#[verifier::external_body]
pub(crate) fn parse_id(text: &str) -> (id: Option<u128>)
    ensures
        id == uuid_parsed(text@),
{
    match Uuid::parse_str(text) {
        Ok(u) => Some(u.as_u128()),
        Err(_) => None,
    }
}

} // verus!
