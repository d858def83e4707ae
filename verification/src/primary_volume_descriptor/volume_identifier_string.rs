//! The volume identifier: a 32-byte, space-padded field over the
//! d-characters.

use vstd::prelude::*;
use vstd::string::StrSliceExecFns;

use super::super::ascii_character_sets;
use super::super::ascii_character_sets::all_in_set;
use super::super::ascii_character_sets::d_characters::is_d_byte;
use super::super::ascii_character_sets::first_illegal_at;
use super::super::ascii_character_sets::identifier_bytes_for;
use super::super::ascii_character_sets::invalid_character_message;
use super::super::ascii_character_sets::spec_char_in_set;
use super::super::ascii_character_sets::CharacterSets;

verus! {

broadcast use vstd::array::group_array_axioms;

/// An ASCII string of exactly 32 bytes, each a d-character or the space
/// padding, built once from a source text of at most 32 legal characters.
pub struct VolumeIdentifierString {
    string_data: [u8; 32],
}

/// A volume identifier field is exactly 32 bytes, however it was built.
pub broadcast proof fn lemma_volume_identifier_len(s: &VolumeIdentifierString)
    ensures
        (#[trigger] s@).len() == 32,
{
}

impl View for VolumeIdentifierString {
    type V = Seq<u8>;

    closed spec fn view(&self) -> Seq<u8> {
        self.string_data@
    }
}

impl VolumeIdentifierString {
    /// Every byte of the field is a d-character or the space padding.
    pub open spec fn wf(&self) -> bool {
        &&& self@.len() == 32
        &&& forall|i: int| 0 <= i < 32 ==> is_d_byte(self@[i]) || self@[i] == 0x20u8
    }

    /// The valid string currently stored in the `VolumeIdentifierString` as
    /// an array of bytes.
    pub fn get_ascii_data(&self) -> (r: &[u8; 32])
        ensures
            r@ == self@,
    {
        &self.string_data
    }

    /// Encodes `input` as a 32-byte volume identifier field: fails with a
    /// length error when the text exceeds 32 characters, with the first
    /// offending character when one falls outside the d-characters, and
    /// otherwise yields the text's ASCII bytes padded with spaces.
    pub fn convert_str_to_valid_system_identifier(input: &str) -> (r: Result<
        [u8; 32],
        (char, &'static str),
    >)
        ensures
            r is Ok <==> (input@.len() <= 32 && all_in_set(input@, CharacterSets::DCharacters)),
            r is Ok ==> identifier_bytes_for(input@, r->Ok_0@),
            input@.len() > 32 ==> (r matches Err(e) && e.0 == '_' && e.1@
                == "Volume Identifiers cannot be larger than 32 characters!"@),
            input@.len() <= 32 && !all_in_set(input@, CharacterSets::DCharacters) ==> (r matches
                Err(e) && exists|j: int|
                #[trigger] first_illegal_at(input@, CharacterSets::DCharacters, j) && e.0
                    == input@[j] && e.1@ == invalid_character_message()),
    {
        if input.unicode_len() > 32 {
            return Err(('_', "Volume Identifiers cannot be larger than 32 characters!"));
        }
        let mut converter = ascii_character_sets::get_converter(
            input,
            ascii_character_sets::CharacterSets::DCharacters,
        );
        let mut output_buf: [u8; 32] = [0x20u8; 32];
        let mut i: usize = 0;
        loop
            invariant
                converter.source() == input@,
                converter.selected_set() == CharacterSets::DCharacters,
                converter.index() == i,
                i <= input@.len() <= 32,
                forall|k: int| 0 <= k < i ==> spec_char_in_set(input@[k], CharacterSets::DCharacters),
                forall|k: int|
                    0 <= k < i ==> output_buf@[k] == ascii_character_sets::char_byte(input@[k]),
                forall|k: int| i <= k < 32 ==> output_buf@[k] == 0x20u8,
            ensures
                i == input@.len(),
                all_in_set(input@, CharacterSets::DCharacters),
                identifier_bytes_for(input@, output_buf@),
            decreases input@.len() - i,
        {
            match converter.next() {
                None => {
                    break;
                },
                Some(Ok(converted)) => {
                    output_buf[i] = converted;
                    i = i + 1;
                },
                Some(Err(failure)) => {
                    proof {
                        assert(first_illegal_at(input@, CharacterSets::DCharacters, i as int));
                    }
                    return Err(failure);
                },
            }
        }
        Ok(output_buf)
    }

    /// Attempts to build a `VolumeIdentifierString` from `input`, under the
    /// same policy as `convert_str_to_valid_system_identifier`: length first,
    /// then character legality, then space-padded encoding.
    pub fn new(input: &str) -> (r: Result<VolumeIdentifierString, (char, &'static str)>)
        ensures
            r is Ok <==> (input@.len() <= 32 && all_in_set(input@, CharacterSets::DCharacters)),
            r is Ok ==> identifier_bytes_for(input@, r->Ok_0@) && r->Ok_0.wf(),
            input@.len() > 32 ==> (r matches Err(e) && e.0 == '_' && e.1@
                == "Volume Identifiers cannot be larger than 32 characters!"@),
            input@.len() <= 32 && !all_in_set(input@, CharacterSets::DCharacters) ==> (r matches
                Err(e) && exists|j: int|
                #[trigger] first_illegal_at(input@, CharacterSets::DCharacters, j) && e.0
                    == input@[j] && e.1@ == invalid_character_message()),
    {
        match Self::convert_str_to_valid_system_identifier(input) {
            Ok(string_data) => Ok(VolumeIdentifierString { string_data }),
            Err(failure) => Err(failure),
        }
    }
}

} // verus!
