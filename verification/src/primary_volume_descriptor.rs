//! The primary volume descriptor: the header record of an ISO-9660 image,
//! built once from caller-supplied parameters and serialized byte-exactly at
//! sector 16.

use vstd::prelude::*;

pub mod system_identifier_string;
pub mod volume_identifier_string;

use super::ascii_character_sets::all_in_set;
use super::ascii_character_sets::identifier_bytes_for;
use super::ascii_character_sets::invalid_character_message;
use super::ascii_character_sets::CharacterSets;
use super::dual_endian::push_u16_be;
use super::dual_endian::push_u16_le;
use super::dual_endian::push_u32_be;
use super::dual_endian::push_u32_le;
use super::dual_endian::u16_be_bytes;
use super::dual_endian::u16_le_bytes;
use super::dual_endian::u32_be_bytes;
use super::dual_endian::u32_le_bytes;
use super::sector;
use super::sink::write_effect;
use super::sink::IoFailure;
use super::sink::SectorSink;
use system_identifier_string::SystemIdentifierString;
use volume_identifier_string::VolumeIdentifierString;

verus! {

broadcast use
    vstd::array::group_array_axioms,
    system_identifier_string::lemma_system_identifier_len,
    volume_identifier_string::lemma_volume_identifier_len,
;

/// The five ASCII bytes of `"CD001"`, the standard identifier that marks a
/// volume descriptor as ISO-9660.
pub open spec fn standard_identifier_bytes() -> Seq<u8> {
    seq![0x43u8, 0x44u8, 0x30u8, 0x30u8, 0x31u8]
}

/// The header record of an ISO-9660 image. It is built once by `new`, which
/// validates and encodes the two identifier fields, and is consumed by
/// `write_primary_volume_descriptor`, which lays the record down at sector
/// 16 of a sink.
pub struct PrimaryVolumeDescriptor {
    /// The value `1` marks this record as a primary volume descriptor.
    pub volume_descriptor_type: [u8; 1],
    /// The ASCII bytes of `"CD001"`: the mark of an ISO-9660 image.
    pub standard_identifier: [u8; 5],
    /// Version of the primary volume descriptor layout: always `1`.
    pub volume_descriptor_version: [u8; 1],
    /// One reserved byte, always zero.
    pub unused_field: [u8; 1],
    /// The system identifier: 32 bytes over the a-characters, space-padded.
    pub system_identifier: SystemIdentifierString,
    /// The volume identifier: 32 bytes over the d-characters, space-padded.
    pub volume_identifier: VolumeIdentifierString,
    /// Eight reserved bytes, always zero.
    pub unused_fields2: [u8; 8],
    /// How many logical blocks the volume spans.
    pub volume_space_size: u32,
    /// Thirty-two reserved bytes, always zero.
    pub unused_fields3: [u8; 32],
    /// How many discs the volume set has.
    pub volume_set_size: u16,
    /// Which disc of the volume set this is.
    pub volume_sequence_number: u16,
    /// The size of a logical block of data, usually the 2048 of a CD-ROM
    /// sector.
    pub logical_block_size: u16,
    /// The size of the path table in bytes.
    pub path_table_size: u32,
}

impl PrimaryVolumeDescriptor {
    /// The fixed-value fields hold their mandated constants and both
    /// identifier fields are well-formed 32-byte encodings.
    pub open spec fn wf(&self) -> bool {
        &&& self.volume_descriptor_type@ == seq![1u8]
        &&& self.standard_identifier@ == standard_identifier_bytes()
        &&& self.volume_descriptor_version@ == seq![1u8]
        &&& self.unused_field@ == seq![0u8]
        &&& self.unused_fields2@ == Seq::new(8, |i: int| 0u8)
        &&& self.unused_fields3@ == Seq::new(32, |i: int| 0u8)
        &&& self.system_identifier.wf()
        &&& self.volume_identifier.wf()
    }

    /// The on-disc form of the record: every field in its mandated order,
    /// each numeric field twice, little-endian first, then big-endian.
    pub open spec fn spec_serialized(&self) -> Seq<u8> {
        self.volume_descriptor_type@ + self.standard_identifier@
            + self.volume_descriptor_version@ + self.unused_field@ + self.system_identifier@
            + self.volume_identifier@ + self.unused_fields2@ + u32_le_bytes(self.volume_space_size)
            + u32_be_bytes(self.volume_space_size) + self.unused_fields3@ + u16_le_bytes(
            self.volume_set_size,
        ) + u16_be_bytes(self.volume_set_size) + u16_le_bytes(self.volume_sequence_number)
            + u16_be_bytes(self.volume_sequence_number) + u16_le_bytes(self.logical_block_size)
            + u16_be_bytes(self.logical_block_size) + u32_le_bytes(self.path_table_size)
            + u32_be_bytes(self.path_table_size)
    }

    /// The serialized record is always exactly 140 bytes long.
    pub proof fn lemma_serialized_record_length(&self)
        ensures
            self.spec_serialized().len() == 140,
    {
    }

    /// Validates and builds a `PrimaryVolumeDescriptor`. The system
    /// identifier is encoded over the a-characters and the volume identifier
    /// over the d-characters; if either is rejected, construction fails with
    /// that identifier's message and no descriptor exists. The fixed-value
    /// fields are set to their mandated constants.
    pub fn new(
        system_identifier: &str,
        volume_identifier: &str,
        volume_space_size: u32,
        volume_set_size: u16,
        volume_sequence_number: u16,
        logical_block_size: u16,
        path_table_size: u32,
    ) -> (r: Result<PrimaryVolumeDescriptor, &'static str>)
        ensures
            r is Ok <==> (system_identifier@.len() <= 32 && all_in_set(
                system_identifier@,
                CharacterSets::ACharacters,
            ) && volume_identifier@.len() <= 32 && all_in_set(
                volume_identifier@,
                CharacterSets::DCharacters,
            )),
            r matches Ok(d) ==> {
                &&& d.wf()
                &&& identifier_bytes_for(system_identifier@, d.system_identifier@)
                &&& identifier_bytes_for(volume_identifier@, d.volume_identifier@)
                &&& d.volume_space_size == volume_space_size
                &&& d.volume_set_size == volume_set_size
                &&& d.volume_sequence_number == volume_sequence_number
                &&& d.logical_block_size == logical_block_size
                &&& d.path_table_size == path_table_size
            },
            system_identifier@.len() > 32 ==> (r matches Err(m) && m@
                == "System Identifiers cannot be larger than 32 characters!"@),
            system_identifier@.len() <= 32 && !all_in_set(
                system_identifier@,
                CharacterSets::ACharacters,
            ) ==> (r matches Err(m) && m@ == invalid_character_message()),
            (system_identifier@.len() <= 32 && all_in_set(
                system_identifier@,
                CharacterSets::ACharacters,
            ) && volume_identifier@.len() > 32) ==> (r matches Err(m) && m@
                == "Volume Identifiers cannot be larger than 32 characters!"@),
            (system_identifier@.len() <= 32 && all_in_set(
                system_identifier@,
                CharacterSets::ACharacters,
            ) && volume_identifier@.len() <= 32 && !all_in_set(
                volume_identifier@,
                CharacterSets::DCharacters,
            )) ==> (r matches Err(m) && m@ == invalid_character_message()),
    {
        let encoded_system_identifier = match SystemIdentifierString::new(system_identifier) {
            Ok(encoded) => encoded,
            Err(failure) => {
                return Err(failure.1);
            },
        };
        let encoded_volume_identifier = match VolumeIdentifierString::new(volume_identifier) {
            Ok(encoded) => encoded,
            Err(failure) => {
                return Err(failure.1);
            },
        };
        let descriptor = PrimaryVolumeDescriptor {
            volume_descriptor_type: [1u8],
            standard_identifier: [0x43u8, 0x44u8, 0x30u8, 0x30u8, 0x31u8],
            volume_descriptor_version: [1u8],
            unused_field: [0u8],
            system_identifier: encoded_system_identifier,
            volume_identifier: encoded_volume_identifier,
            unused_fields2: [0u8; 8],
            volume_space_size,
            unused_fields3: [0u8; 32],
            volume_set_size,
            volume_sequence_number,
            logical_block_size,
            path_table_size,
        };
        proof {
            assert(descriptor.volume_descriptor_type@ =~= seq![1u8]);
            assert(descriptor.standard_identifier@ =~= standard_identifier_bytes());
            assert(descriptor.volume_descriptor_version@ =~= seq![1u8]);
            assert(descriptor.unused_field@ =~= seq![0u8]);
            assert(descriptor.unused_fields2@ =~= Seq::new(8, |i: int| 0u8));
            assert(descriptor.unused_fields3@ =~= Seq::new(32, |i: int| 0u8));
        }
        Ok(descriptor)
    }

    /// The record as the 140 bytes that `write_primary_volume_descriptor`
    /// lays down at sector 16.
    pub fn serialize(&self) -> (out: Vec<u8>)
        ensures
            out@ == self.spec_serialized(),
            out@.len() == 140,
    {
        let mut out: Vec<u8> = Vec::new();
        out.extend_from_slice(self.volume_descriptor_type.as_slice());
        out.extend_from_slice(self.standard_identifier.as_slice());
        out.extend_from_slice(self.volume_descriptor_version.as_slice());
        out.extend_from_slice(self.unused_field.as_slice());
        out.extend_from_slice(self.system_identifier.get_ascii_data().as_slice());
        out.extend_from_slice(self.volume_identifier.get_ascii_data().as_slice());
        out.extend_from_slice(self.unused_fields2.as_slice());
        push_u32_le(&mut out, self.volume_space_size);
        push_u32_be(&mut out, self.volume_space_size);
        out.extend_from_slice(self.unused_fields3.as_slice());
        push_u16_le(&mut out, self.volume_set_size);
        push_u16_be(&mut out, self.volume_set_size);
        push_u16_le(&mut out, self.volume_sequence_number);
        push_u16_be(&mut out, self.volume_sequence_number);
        push_u16_le(&mut out, self.logical_block_size);
        push_u16_be(&mut out, self.logical_block_size);
        push_u32_le(&mut out, self.path_table_size);
        push_u32_be(&mut out, self.path_table_size);
        proof {
            assert(out@ =~= self.spec_serialized());
        }
        out
    }

    /// Writes the record to `output`: seeks to the absolute start of sector
    /// 16 (byte offset 32768), lays down the 140 serialized bytes, and
    /// flushes. A failure of the underlying sink is surfaced as it is, and
    /// may leave the sink partially written; on success the sink holds the
    /// record at offset 32768, everything outside that span as it was, with
    /// the cursor just past the record.
    pub fn write_primary_volume_descriptor<IsoFile: SectorSink>(&self, output: &mut IsoFile) -> (r:
        Result<(), IoFailure>)
        ensures
            r is Ok ==> write_effect(
                old(output).contents(),
                32768,
                self.spec_serialized(),
                final(output).contents(),
            ) && final(output).position() == 32768 + 140,
    {
        match sector::seek_to_sector(output, 16) {
            Ok(_) => (),
            Err(failure) => {
                return Err(failure);
            },
        }
        let record = self.serialize();
        match output.write_bytes(record.as_slice()) {
            Ok(_) => (),
            Err(failure) => {
                return Err(failure);
            },
        }
        match output.flush() {
            Ok(_) => (),
            Err(failure) => {
                return Err(failure);
            },
        }
        Ok(())
    }
}

} // verus!
