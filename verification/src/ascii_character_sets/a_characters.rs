//! The a-character alphabet: the wider of the two identifier character sets.

use vstd::prelude::*;

use super::char_byte;

verus! {

/// Membership in the a-characters: space, `!`, `"`, `%`, the run
/// `'()*+,-./0123456789:;<=>?`, the upper-case letters, and `_`.
/// Everything outside printable ASCII is excluded.
pub open spec fn is_a_character(c: char) -> bool {
    let v = c as int;
    ||| 0x20 <= v <= 0x22
    ||| v == 0x25
    ||| 0x27 <= v <= 0x3f
    ||| 0x41 <= v <= 0x5a
    ||| v == 0x5f
}

/// The same membership test, over the ASCII byte a validator returned.
pub open spec fn is_a_byte(b: u8) -> bool {
    ||| 0x20 <= b <= 0x22
    ||| b == 0x25
    ||| 0x27 <= b <= 0x3f
    ||| 0x41 <= b <= 0x5a
    ||| b == 0x5f
}

/// Attempts to convert `input` into a valid ASCII byte from the a-character
/// set: returns the character's own byte value exactly when the character is
/// a member, and `None` otherwise.
pub fn convert_char_to_a_character_set(input: char) -> (r: Option<u8>)
    ensures
        is_a_character(input) ==> r == Some(char_byte(input)),
        !is_a_character(input) ==> r is None,
        r is Some ==> is_a_byte(r->0),
{
    let code = input as u32;
    if (0x20 <= code && code <= 0x22) || code == 0x25 || (0x27 <= code && code <= 0x3f) || (0x41
        <= code && code <= 0x5a) || code == 0x5f {
        Some(code as u8)
    } else {
        None
    }
}

} // verus!
