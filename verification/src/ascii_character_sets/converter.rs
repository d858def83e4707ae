//! A forward-only, per-character conversion pass over a source text: each
//! step classifies the next character under the selected character set and
//! yields its ASCII byte, or the offending character with a reason.

use vstd::prelude::*;
use vstd::string::StrSliceExecFns;

use super::a_characters::convert_char_to_a_character_set;
use super::d_characters::convert_char_to_d_character_set;
use super::char_byte;
use super::invalid_character_message;
use super::spec_char_in_set;
use super::CharacterSets;

verus! {

/// A single pass over `text`, converting one character per `next` call under
/// the character set chosen at construction. It is not restartable: once the
/// text is exhausted, every further `next` returns `None`.
pub struct CharacterConverter<'a> {
    text: &'a str,
    position: usize,
    charset: CharacterSets,
}

impl<'a> CharacterConverter<'a> {
    /// The characters of the source text driven by this converter.
    pub closed spec fn source(&self) -> Seq<char> {
        self.text@
    }

    /// How many characters have already been consumed.
    pub closed spec fn index(&self) -> int {
        self.position as int
    }

    /// The character set every character is validated against.
    pub closed spec fn selected_set(&self) -> CharacterSets {
        self.charset
    }

    /// A fresh converter over `input`, positioned before its first character.
    pub fn new(input: &'a str, character_set: CharacterSets) -> (c: CharacterConverter<'a>)
        ensures
            c.source() == input@,
            c.index() == 0,
            c.selected_set() == character_set,
    {
        CharacterConverter { text: input, position: 0, charset: character_set }
    }

    /// Converts the next character of the source text, if one is left: its
    /// ASCII byte value when the selected set admits it, otherwise the
    /// character itself with the reason it was rejected.
    pub fn next(&mut self) -> (r: Option<Result<u8, (char, &'static str)>>)
        ensures
            final(self).source() == old(self).source(),
            final(self).selected_set() == old(self).selected_set(),
            old(self).index() >= old(self).source().len() ==> r is None && final(self).index()
                == old(self).index(),
            old(self).index() < old(self).source().len() ==> {
                let c = old(self).source()[old(self).index()];
                &&& final(self).index() == old(self).index() + 1
                &&& spec_char_in_set(c, old(self).selected_set()) ==> r == Some(
                    Result::<u8, (char, &'static str)>::Ok(char_byte(c)),
                )
                &&& !spec_char_in_set(c, old(self).selected_set()) ==> (r matches Some(item)
                    && (item matches Err(e) && e.0 == c && e.1@ == invalid_character_message()))
            },
    {
        if self.position >= self.text.unicode_len() {
            return None;
        }
        let next_char = self.text.get_char(self.position);
        self.position = self.position + 1;
        let converted = match self.charset {
            CharacterSets::ACharacters => convert_char_to_a_character_set(next_char),
            CharacterSets::DCharacters => convert_char_to_d_character_set(next_char),
        };
        Some(
            match converted {
                Some(converted_char) => Ok(converted_char),
                None => Err((next_char, "Character is not valid in this character set!")),
            },
        )
    }
}

} // verus!
