//! Sector addressing: a logical sector index maps to an absolute byte offset,
//! and a sink can be positioned at that offset.

use vstd::prelude::*;

use super::sink::IoFailure;
use super::sink::SectorSink;

verus! {

/// Number of a sector on an image.
pub type SectorLocation = u64;

/// The size of a sector on a CD-ROM, in bytes.
pub const ISO_9660_SECTOR_SIZE: u64 = 2048;

/// The absolute byte offset at which `sector` starts:
/// `sector * ISO_9660_SECTOR_SIZE`.
pub fn get_sector_location(sector: SectorLocation) -> (r: u64)
    requires
        sector * ISO_9660_SECTOR_SIZE <= u64::MAX,
    ensures
        r == sector * ISO_9660_SECTOR_SIZE,
{
    sector * ISO_9660_SECTOR_SIZE
}

/// Seeks `output` to the absolute start of `sector` and reports the
/// resulting position. The bytes the sink holds do not change; a failure is
/// whatever the underlying store reported.
pub fn seek_to_sector<T: SectorSink>(output: &mut T, sector: SectorLocation) -> (r: Result<
    u64,
    IoFailure,
>)
    requires
        sector * ISO_9660_SECTOR_SIZE <= u64::MAX,
    ensures
        r is Ok ==> final(output).contents() == old(output).contents() && final(output).position()
            == sector * ISO_9660_SECTOR_SIZE && r->Ok_0 == sector * ISO_9660_SECTOR_SIZE,
{
    let sector_location = get_sector_location(sector);
    output.seek_from_start(sector_location)
}

} // verus!
