//! The system identifier: a 32-byte, space-padded field over the
//! a-characters.

use vstd::prelude::*;
use vstd::string::StrSliceExecFns;

use super::super::ascii_character_sets;
use super::super::ascii_character_sets::a_characters::is_a_byte;
use super::super::ascii_character_sets::all_in_set;
use super::super::ascii_character_sets::first_illegal_at;
use super::super::ascii_character_sets::identifier_bytes_for;
use super::super::ascii_character_sets::invalid_character_message;
use super::super::ascii_character_sets::spec_char_in_set;
use super::super::ascii_character_sets::CharacterSets;

verus! {

broadcast use vstd::array::group_array_axioms;

/// An ASCII string of exactly 32 bytes, each an a-character or the space
/// padding, built once from a source text of at most 32 legal characters.
pub struct SystemIdentifierString {
    string_data: [u8; 32],
}

/// A system identifier field is exactly 32 bytes, however it was built.
pub broadcast proof fn lemma_system_identifier_len(s: &SystemIdentifierString)
    ensures
        (#[trigger] s@).len() == 32,
{
}

impl View for SystemIdentifierString {
    type V = Seq<u8>;

    closed spec fn view(&self) -> Seq<u8> {
        self.string_data@
    }
}

impl SystemIdentifierString {
    /// Every byte of the field is an a-character (the space padding is one).
    pub open spec fn wf(&self) -> bool {
        &&& self@.len() == 32
        &&& forall|i: int| 0 <= i < 32 ==> is_a_byte(self@[i])
    }

    /// The valid string currently stored in the `SystemIdentifierString` as
    /// an array of bytes.
    pub fn get_ascii_data(&self) -> (r: &[u8; 32])
        ensures
            r@ == self@,
    {
        &self.string_data
    }

    /// Encodes `input` as a 32-byte system identifier field: fails with a
    /// length error when the text exceeds 32 characters, with the first
    /// offending character when one falls outside the a-characters, and
    /// otherwise yields the text's ASCII bytes padded with spaces.
    pub fn convert_str_to_valid_system_identifier(input: &str) -> (r: Result<
        [u8; 32],
        (char, &'static str),
    >)
        ensures
            r is Ok <==> (input@.len() <= 32 && all_in_set(input@, CharacterSets::ACharacters)),
            r is Ok ==> identifier_bytes_for(input@, r->Ok_0@),
            input@.len() > 32 ==> (r matches Err(e) && e.0 == '_' && e.1@
                == "System Identifiers cannot be larger than 32 characters!"@),
            input@.len() <= 32 && !all_in_set(input@, CharacterSets::ACharacters) ==> (r matches
                Err(e) && exists|j: int|
                #[trigger] first_illegal_at(input@, CharacterSets::ACharacters, j) && e.0
                    == input@[j] && e.1@ == invalid_character_message()),
    {
        if input.unicode_len() > 32 {
            return Err(('_', "System Identifiers cannot be larger than 32 characters!"));
        }
        let mut converter = ascii_character_sets::get_converter(
            input,
            ascii_character_sets::CharacterSets::ACharacters,
        );
        let mut output_buf: [u8; 32] = [0x20u8; 32];
        let mut i: usize = 0;
        loop
            invariant
                converter.source() == input@,
                converter.selected_set() == CharacterSets::ACharacters,
                converter.index() == i,
                i <= input@.len() <= 32,
                forall|k: int| 0 <= k < i ==> spec_char_in_set(input@[k], CharacterSets::ACharacters),
                forall|k: int|
                    0 <= k < i ==> output_buf@[k] == ascii_character_sets::char_byte(input@[k]),
                forall|k: int| i <= k < 32 ==> output_buf@[k] == 0x20u8,
            ensures
                i == input@.len(),
                all_in_set(input@, CharacterSets::ACharacters),
                identifier_bytes_for(input@, output_buf@),
            decreases input@.len() - i,
        {
            match converter.next() {
                None => {
                    break;
                },
                Some(Ok(converted)) => {
                    output_buf[i] = converted;
                    i = i + 1;
                },
                Some(Err(failure)) => {
                    proof {
                        assert(first_illegal_at(input@, CharacterSets::ACharacters, i as int));
                    }
                    return Err(failure);
                },
            }
        }
        Ok(output_buf)
    }

    /// Attempts to build a `SystemIdentifierString` from `input`, under the
    /// same policy as `convert_str_to_valid_system_identifier`: length first,
    /// then character legality, then space-padded encoding.
    pub fn new(input: &str) -> (r: Result<SystemIdentifierString, (char, &'static str)>)
        ensures
            r is Ok <==> (input@.len() <= 32 && all_in_set(input@, CharacterSets::ACharacters)),
            r is Ok ==> identifier_bytes_for(input@, r->Ok_0@) && r->Ok_0.wf(),
            input@.len() > 32 ==> (r matches Err(e) && e.0 == '_' && e.1@
                == "System Identifiers cannot be larger than 32 characters!"@),
            input@.len() <= 32 && !all_in_set(input@, CharacterSets::ACharacters) ==> (r matches
                Err(e) && exists|j: int|
                #[trigger] first_illegal_at(input@, CharacterSets::ACharacters, j) && e.0
                    == input@[j] && e.1@ == invalid_character_message()),
    {
        match Self::convert_str_to_valid_system_identifier(input) {
            Ok(string_data) => Ok(SystemIdentifierString { string_data }),
            Err(failure) => Err(failure),
        }
    }
}

} // verus!
