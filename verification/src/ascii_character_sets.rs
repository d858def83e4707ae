//! The two restricted ASCII alphabets of ISO-9660 and the machinery shared by
//! the identifier codecs: membership predicates, the error message for a
//! rejected character, and the shape of a successfully encoded 32-byte field.

use vstd::prelude::*;

pub mod a_characters;
pub mod converter;
pub mod d_characters;

verus! {

/// ISO-9660 character sets
#[derive(Clone, Copy)]
pub enum CharacterSets {
    /// The a-characters: `A-Z`, `0-9`, and
    /// `_ !"%'()*+,-./:;<=>?` (space included).
    ACharacters,
    /// The d-characters: `A-Z`, `0-9` and `_`.
    DCharacters,
}

/// The byte value of an ASCII character, as the validators hand it out.
pub open spec fn char_byte(c: char) -> u8 {
    (c as int) as u8
}

/// Membership of a single character in the selected character set.
pub open spec fn spec_char_in_set(c: char, character_set: CharacterSets) -> bool {
    match character_set {
        CharacterSets::ACharacters => a_characters::is_a_character(c),
        CharacterSets::DCharacters => d_characters::is_d_character(c),
    }
}

/// Every character of the text is a member of the selected character set.
pub open spec fn all_in_set(s: Seq<char>, character_set: CharacterSets) -> bool {
    forall|i: int| 0 <= i < s.len() ==> spec_char_in_set(s[i], character_set)
}

/// Position `j` holds the first character of `s` that the selected character
/// set rejects: `s[j]` is illegal and everything before it is legal.
pub open spec fn first_illegal_at(s: Seq<char>, character_set: CharacterSets, j: int) -> bool {
    &&& 0 <= j < s.len()
    &&& !spec_char_in_set(s[j], character_set)
    &&& forall|k: int| 0 <= k < j ==> spec_char_in_set(s[k], character_set)
}

/// The 32-byte identifier field encoding a source text of at most 32
/// characters: the text's ASCII bytes first, the rest ASCII space (0x20).
pub open spec fn identifier_bytes_for(s: Seq<char>, bytes: Seq<u8>) -> bool {
    &&& bytes.len() == 32
    &&& s.len() <= 32
    &&& forall|i: int| 0 <= i < s.len() ==> bytes[i] == char_byte(s[i])
    &&& forall|i: int| s.len() <= i < 32 ==> bytes[i] == 0x20u8
}

/// The message carried by a conversion failure, whichever set was selected.
pub open spec fn invalid_character_message() -> Seq<char> {
    "Character is not valid in this character set!"@
}

/// A fresh converter that validates `input` against `character_set`.
pub fn get_converter<'a>(input: &'a str, character_set: CharacterSets) -> (c:
    converter::CharacterConverter<'a>)
    ensures
        c.source() == input@,
        c.index() == 0,
        c.selected_set() == character_set,
{
    converter::CharacterConverter::new(input, character_set)
}

/// The d-characters are a strict subset of the a-characters: every d-valid
/// character is also a-valid, while the space is a-valid but d-invalid.
pub proof fn lemma_d_characters_strict_subset_of_a_characters()
    ensures
        forall|c: char|
            d_characters::is_d_character(c) ==> a_characters::is_a_character(c),
        a_characters::is_a_character(' '),
        !d_characters::is_d_character(' '),
{
}

} // verus!
