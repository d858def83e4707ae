//! The d-character alphabet: the narrower of the two identifier character
//! sets.

use vstd::prelude::*;

use super::char_byte;

verus! {

/// Membership in the d-characters: the upper-case letters, the digits, and
/// `_`. Everything else, printable or not, is excluded.
pub open spec fn is_d_character(c: char) -> bool {
    let v = c as int;
    ||| 0x30 <= v <= 0x39
    ||| 0x41 <= v <= 0x5a
    ||| v == 0x5f
}

/// The same membership test, over the ASCII byte a validator returned.
pub open spec fn is_d_byte(b: u8) -> bool {
    ||| 0x30 <= b <= 0x39
    ||| 0x41 <= b <= 0x5a
    ||| b == 0x5f
}

/// Attempts to convert `input` into a valid ASCII byte from the d-character
/// set: returns the character's own byte value exactly when the character is
/// a member, and `None` otherwise.
pub fn convert_char_to_d_character_set(input: char) -> (r: Option<u8>)
    ensures
        is_d_character(input) ==> r == Some(char_byte(input)),
        !is_d_character(input) ==> r is None,
        r is Some ==> is_d_byte(r->0),
{
    let code = input as u32;
    if (0x30 <= code && code <= 0x39) || (0x41 <= code && code <= 0x5a) || code == 0x5f {
        Some(code as u8)
    } else {
        None
    }
}

} // verus!
