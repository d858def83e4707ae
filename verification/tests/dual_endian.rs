use iso_9660::dual_endian::decode_u16_be;
use iso_9660::dual_endian::decode_u16_le;
use iso_9660::dual_endian::decode_u32_be;
use iso_9660::dual_endian::decode_u32_le;
use iso_9660::dual_endian::push_u16_be;
use iso_9660::dual_endian::push_u16_le;
use iso_9660::dual_endian::push_u32_be;
use iso_9660::dual_endian::push_u32_le;

#[test]
fn u32_encoding_of_600_matches_the_format_example() {
    let mut le: Vec<u8> = Vec::new();
    push_u32_le(&mut le, 600);
    assert_eq!(vec![0x58, 0x02, 0x00, 0x00], le);

    let mut be: Vec<u8> = Vec::new();
    push_u32_be(&mut be, 600);
    assert_eq!(vec![0x00, 0x00, 0x02, 0x58], be);
}

#[test]
fn u32_round_trip_through_either_half() {
    for value in [0u32, 1, 600, 2048, 0x01020304, u32::MAX] {
        let mut le: Vec<u8> = Vec::new();
        push_u32_le(&mut le, value);
        let mut be: Vec<u8> = Vec::new();
        push_u32_be(&mut be, value);

        assert_eq!(value, decode_u32_le(&le));
        assert_eq!(value, decode_u32_be(&be));
    }
}

#[test]
fn u16_round_trip_through_either_half() {
    for value in [0u16, 1, 600, 2048, 0x0102, u16::MAX] {
        let mut le: Vec<u8> = Vec::new();
        push_u16_le(&mut le, value);
        let mut be: Vec<u8> = Vec::new();
        push_u16_be(&mut be, value);

        assert_eq!(vec![(value & 0xff) as u8, (value >> 8) as u8], le);
        assert_eq!(vec![(value >> 8) as u8, (value & 0xff) as u8], be);
        assert_eq!(value, decode_u16_le(&le));
        assert_eq!(value, decode_u16_be(&be));
    }
}

#[test]
fn both_halves_of_one_encoding_decode_to_the_same_value() {
    let value = 0xBEEFu16;
    let mut halves: Vec<u8> = Vec::new();
    push_u16_le(&mut halves, value);
    push_u16_be(&mut halves, value);

    assert_eq!(decode_u16_le(&halves[0..2]), decode_u16_be(&halves[2..4]));
}
