use iso_9660::sector::get_sector_location;
use iso_9660::sector::seek_to_sector;
use iso_9660::sink::MemoryImage;
use iso_9660::sink::SectorSink;

#[test]
fn sector_zero_starts_at_offset_zero() {
    assert_eq!(0, get_sector_location(0));
}

#[test]
fn sector_sixteen_starts_at_offset_32768() {
    assert_eq!(32768, get_sector_location(16));
}

#[test]
fn sector_location_is_the_index_times_2048() {
    assert_eq!(2048, get_sector_location(1));
    assert_eq!(10240, get_sector_location(5));
    assert_eq!(2048 * 1000, get_sector_location(1000));
}

#[test]
fn seeking_moves_the_cursor_without_touching_contents() {
    let mut image = MemoryImage::new();
    image.write_bytes(b"abc").expect("write should succeed");

    let position = seek_to_sector(&mut image, 16).expect("seek should succeed");

    assert_eq!(32768, position);
    assert_eq!(3, image.len());
    assert_eq!(b"abc", image.as_bytes());
}

#[test]
fn writing_past_the_end_zero_fills_the_gap() {
    let mut image = MemoryImage::new();
    seek_to_sector(&mut image, 1).expect("seek should succeed");
    image.write_bytes(b"XY").expect("write should succeed");

    assert_eq!(2050, image.len());
    assert!(image.as_bytes()[..2048].iter().all(|&b| b == 0));
    assert_eq!(b"XY", &image.as_bytes()[2048..]);
}

#[test]
fn overwriting_replaces_only_the_written_span() {
    let mut image = MemoryImage::new();
    image.write_bytes(b"0123456789").expect("write should succeed");
    image.seek_from_start(3).expect("seek should succeed");
    image.write_bytes(b"abc").expect("write should succeed");

    assert_eq!(b"012abc6789", image.as_bytes());
}

#[test]
fn write_beyond_addressable_memory_reports_an_io_failure() {
    let mut image = MemoryImage::new();
    image.seek_from_start(u64::MAX).expect("seek alone should succeed");

    let failure = image.write_bytes(b"x").err().expect("write should fail");
    assert!(!failure.message.is_empty());
}
