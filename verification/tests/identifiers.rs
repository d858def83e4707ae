use iso_9660::primary_volume_descriptor::system_identifier_string::SystemIdentifierString;
use iso_9660::primary_volume_descriptor::volume_identifier_string::VolumeIdentifierString;

#[test]
fn system_identifier_encodes_and_pads_with_spaces() {
    let encoded = SystemIdentifierString::new("AB?9").expect("should be accepted");
    let data = encoded.get_ascii_data();

    assert_eq!(32, data.len());
    assert_eq!(b"AB?9", &data[..4]);
    assert!(data[4..].iter().all(|&b| b == b' '));
}

#[test]
fn empty_identifier_is_all_spaces() {
    let encoded = SystemIdentifierString::new("").expect("should be accepted");
    assert_eq!(&[b' '; 32], encoded.get_ascii_data());

    let encoded = VolumeIdentifierString::new("").expect("should be accepted");
    assert_eq!(&[b' '; 32], encoded.get_ascii_data());
}

#[test]
fn thirty_two_character_identifier_is_accepted_unpadded() {
    let text = "ABCDEFGHIJKLMNOPQRSTUVWXYZ012345";
    assert_eq!(32, text.len());

    let encoded = VolumeIdentifierString::new(text).expect("should be accepted");
    assert_eq!(text.as_bytes(), encoded.get_ascii_data());
}

#[test]
fn identifier_longer_than_32_characters_is_rejected() {
    let text = "ABCDEFGHIJKLMNOPQRSTUVWXYZ0123456";
    assert_eq!(33, text.len());

    let failure = SystemIdentifierString::new(text).err().expect("should be rejected");
    assert_eq!("System Identifiers cannot be larger than 32 characters!", failure.1);

    let failure = VolumeIdentifierString::new(text).err().expect("should be rejected");
    assert_eq!("Volume Identifiers cannot be larger than 32 characters!", failure.1);
}

#[test]
fn too_long_identifier_is_rejected_before_character_validation() {
    // 33 characters, every single one illegal in both sets: the length error
    // still wins.
    let text = "aaaaaaaaaaaaaaaaaaaaaaaaaaaaaaaaa";
    assert_eq!(33, text.len());

    let failure = SystemIdentifierString::new(text).err().expect("should be rejected");
    assert_eq!("System Identifiers cannot be larger than 32 characters!", failure.1);
}

#[test]
fn first_illegal_character_is_reported() {
    let failure =
        SystemIdentifierString::convert_str_to_valid_system_identifier("AB|c|").err().unwrap();
    assert_eq!('|', failure.0);
    assert_eq!("Character is not valid in this character set!", failure.1);

    let failure =
        VolumeIdentifierString::convert_str_to_valid_system_identifier("MY ISO").err().unwrap();
    assert_eq!(' ', failure.0);
    assert_eq!("Character is not valid in this character set!", failure.1);
}

#[test]
fn space_is_legal_in_system_but_not_volume_identifiers() {
    assert!(SystemIdentifierString::new("MY ISO").is_ok());
    assert!(VolumeIdentifierString::new("MY ISO").is_err());
}
