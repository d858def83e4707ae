//! Builder and byte-exact serializer for the primary volume descriptor of an
//! ISO-9660 disc image: restricted ASCII character sets, fixed-width
//! identifier fields, dual-endian integer encoding, sector addressing, and
//! the descriptor record itself.

pub mod ascii_character_sets;
pub mod dual_endian;
pub mod primary_volume_descriptor;
pub mod sector;
pub mod sink;
