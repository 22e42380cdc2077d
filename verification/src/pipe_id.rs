//! Fresh identifiers for control pipes.
//!
//! Every launch gets a pipe of its own, named after a random version-4 UUID.

use vstd::prelude::*;

verus! {

/// Whether `c` is a lower-case hexadecimal digit.
pub open spec fn is_lower_hex(c: char) -> bool {
    hex_digit_value(c) is Some
}

/// The value of a lower-case hexadecimal digit, `None` for any other character.
pub open spec fn hex_digit_value(c: char) -> Option<nat> {
    if c == '0' {
        Some(0)
    } else if c == '1' {
        Some(1)
    } else if c == '2' {
        Some(2)
    } else if c == '3' {
        Some(3)
    } else if c == '4' {
        Some(4)
    } else if c == '5' {
        Some(5)
    } else if c == '6' {
        Some(6)
    } else if c == '7' {
        Some(7)
    } else if c == '8' {
        Some(8)
    } else if c == '9' {
        Some(9)
    } else if c == 'a' {
        Some(10)
    } else if c == 'b' {
        Some(11)
    } else if c == 'c' {
        Some(12)
    } else if c == 'd' {
        Some(13)
    } else if c == 'e' {
        Some(14)
    } else if c == 'f' {
        Some(15)
    } else {
        None
    }
}

/// Whether position `i` of a hyphenated UUID holds a hyphen.
pub open spec fn is_hyphen_position(i: int) -> bool {
    i == 8 || i == 13 || i == 18 || i == 23
}

/// The shape of a random (version 4) UUID in its hyphenated lower-case form,
/// `xxxxxxxx-xxxx-4xxx-yxxx-xxxxxxxxxxxx`: 36 characters, hyphens after the
/// 8th, 12th, 16th and 20th digit, the version digit `4`, and a variant digit
/// `y` among `8`, `9`, `a`, `b`.
pub open spec fn is_random_uuid_text(s: Seq<char>) -> bool {
    &&& s.len() == 36
    &&& forall|i: int| 0 <= i < 36 && is_hyphen_position(i) ==> s[i] == '-'
    &&& forall|i: int| 0 <= i < 36 && !is_hyphen_position(i) ==> is_lower_hex(#[trigger] s[i])
    &&& s[14] == '4'
    &&& (s[19] == '8' || s[19] == '9' || s[19] == 'a' || s[19] == 'b')
}

/// Draws a fresh pipe identifier from the `uuid` crate: `Uuid::new_v4()`
/// rendered by its `Display` impl.
///
/// Trusted, not proved: the contract is the textual shape that the crate
/// gives every version-4 UUID. Which UUID comes back is random, so nothing
/// more is claimed; two calls are not known to differ. The call panics if
/// the operating system cannot supply random bytes.
#[verifier::external_body]
pub(crate) fn fresh_pipe_id() -> (id: String)
    ensures
        is_random_uuid_text(id@),
{
    uuid::Uuid::new_v4().to_string()
}

} // verus!
