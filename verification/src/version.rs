//! The 3-way dispatch on the header's major version: the legacy 1.x layout
//! (relative index offset, index sub-version; index decoding itself is an
//! extension point, not performed), the current 2.x/3.x layout (absolute
//! index offset, full index decoding), and unknown generations (recognized,
//! reported, empty result).

use vstd::prelude::*;

use crate::error::IndexReadError;
use crate::index::entry_in_bounds;
use crate::index::entry_pos;
use crate::index::index_entry_fields;
use crate::index::read_all_index_v2;

verus! {

/// The header slot holding the major version.
pub const SLOT_MAJOR_VERSION: usize = 1;

/// The header slot holding the index entry count.
pub const SLOT_INDEX_ENTRY_COUNT: usize = 9;

/// The header slot holding the relative index offset (1.x layout).
pub const SLOT_INDEX_OFFSET_V1: usize = 10;

/// The header slot holding the raw index minor version (1.x layout).
pub const SLOT_INDEX_VERSION_MINOR: usize = 15;

/// The header slot holding the absolute index offset (2.x/3.x layout).
pub const SLOT_INDEX_OFFSET_V2: usize = 16;

/// The effective 1.x index sub-version: the raw slot value minus one. A raw
/// value of zero wraps to the largest 32-bit value, as 32-bit subtraction
/// does.
pub open spec fn effective_sub_version(raw: u32) -> u32 {
    if raw == 0 {
        0xFFFFFFFFu32
    } else {
        (raw - 1) as u32
    }
}

/// Which decoding path a header's major version selects, with the values
/// that path needs.
#[derive(Clone, Copy, Debug, PartialEq, Eq, Structural)]
pub enum VersionPath {
    /// Major version 1: the index offset is relative, and the index record
    /// sub-version tells the record layout apart.
    LegacyV1 { relative_offset: u32, sub_version_minor: u32 },
    /// Major version 2 or 3: the index offset is absolute.
    Current { absolute_offset: u32 },
    /// Any other major version: recognized but not handled.
    Unsupported { major_version: u32 },
}

/// Classifies a decoded header by its major version: 1 selects the legacy
/// path and surfaces the relative offset and sub-version for diagnostic
/// use; 2 and 3 select the current path with the absolute offset; anything
/// else is unsupported.
pub fn classify_version(header: &[u32]) -> (r: VersionPath)
    requires
        header.len() >= crate::header::HEADER_WORDS,
    ensures
        header@[SLOT_MAJOR_VERSION as int] == 1 ==> r == (VersionPath::LegacyV1 {
            relative_offset: header@[SLOT_INDEX_OFFSET_V1 as int],
            sub_version_minor: effective_sub_version(header@[SLOT_INDEX_VERSION_MINOR as int]),
        }),
        header@[SLOT_MAJOR_VERSION as int] == 2 || header@[SLOT_MAJOR_VERSION as int] == 3 ==> r
            == (VersionPath::Current { absolute_offset: header@[SLOT_INDEX_OFFSET_V2 as int] }),
        !(header@[SLOT_MAJOR_VERSION as int] == 1 || header@[SLOT_MAJOR_VERSION as int] == 2
            || header@[SLOT_MAJOR_VERSION as int] == 3) ==> r == (VersionPath::Unsupported {
            major_version: header@[SLOT_MAJOR_VERSION as int],
        }),
{
    let major = header[SLOT_MAJOR_VERSION];
    if major == 1 {
        let raw_minor = header[SLOT_INDEX_VERSION_MINOR];
        let sub_version_minor = if raw_minor == 0 {
            u32::MAX
        } else {
            raw_minor - 1
        };
        VersionPath::LegacyV1 { relative_offset: header[SLOT_INDEX_OFFSET_V1], sub_version_minor }
    } else if major == 2 || major == 3 {
        VersionPath::Current { absolute_offset: header[SLOT_INDEX_OFFSET_V2] }
    } else {
        VersionPath::Unsupported { major_version: major }
    }
}

/// The outcome of reading the index table for one archive.
#[derive(Debug)]
pub enum IndexOutcome {
    /// Legacy 1.x archive: the computed offset and sub-version are
    /// surfaced; no index record is decoded.
    LegacyV1 { relative_offset: u32, sub_version_minor: u32 },
    /// Current 2.x/3.x archive: the ordered sequence of decoded index
    /// records, one per slot in `[0, entryCount)`.
    Current { entries: Vec<Vec<u32>> },
    /// Unknown generation: an empty result, not a failure.
    Unsupported { major_version: u32 },
}

/// Reads the index table of the archive held in `bytes`, as the decoded
/// header directs: major version 1 only surfaces the legacy diagnostic
/// values, 2 and 3 decode every record of the index table, and any other
/// version yields the empty unsupported outcome. An entry count of zero
/// yields an empty sequence with no read beyond the header.
pub fn read_index_for_version(bytes: &[u8], header: &[u32]) -> (r: Result<
    IndexOutcome,
    IndexReadError,
>)
    requires
        header.len() >= crate::header::HEADER_WORDS,
    ensures
        header@[SLOT_MAJOR_VERSION as int] == 1 ==> (r matches Ok(o) && o
            == (IndexOutcome::LegacyV1 {
            relative_offset: header@[SLOT_INDEX_OFFSET_V1 as int],
            sub_version_minor: effective_sub_version(header@[SLOT_INDEX_VERSION_MINOR as int]),
        })),
        header@[SLOT_MAJOR_VERSION as int] == 2 || header@[SLOT_MAJOR_VERSION as int] == 3 ==> {
            &&& r is Ok <==> (forall|i: int|
                0 <= i < header@[SLOT_INDEX_ENTRY_COUNT as int] ==> entry_in_bounds(
                    bytes.len() as int,
                    header@[SLOT_INDEX_OFFSET_V2 as int] as int,
                    i,
                ))
            &&& r matches Ok(o) ==> o matches IndexOutcome::Current { entries }
                && entries@.len() == header@[SLOT_INDEX_ENTRY_COUNT as int] && (forall|i: int|
                0 <= i < entries@.len() ==> entries@[i]@ == index_entry_fields(
                    bytes@,
                    entry_pos(header@[SLOT_INDEX_OFFSET_V2 as int] as int, i),
                ))
            &&& r matches Err(e) ==> e.failing_index < header@[SLOT_INDEX_ENTRY_COUNT as int]
                && e.cause is IoFailure && !entry_in_bounds(
                bytes.len() as int,
                header@[SLOT_INDEX_OFFSET_V2 as int] as int,
                e.failing_index as int,
            )
        },
        (header@[SLOT_MAJOR_VERSION as int] == 2 || header@[SLOT_MAJOR_VERSION as int] == 3)
            && header@[SLOT_INDEX_ENTRY_COUNT as int] == 0 ==> (r matches Ok(o)
            && o matches IndexOutcome::Current { entries } && entries@.len() == 0),
        !(header@[SLOT_MAJOR_VERSION as int] == 1 || header@[SLOT_MAJOR_VERSION as int] == 2
            || header@[SLOT_MAJOR_VERSION as int] == 3) ==> (r matches Ok(o) && o
            == (IndexOutcome::Unsupported { major_version: header@[SLOT_MAJOR_VERSION as int] })),
{
    match classify_version(header) {
        VersionPath::LegacyV1 { relative_offset, sub_version_minor } => Ok(
            IndexOutcome::LegacyV1 { relative_offset, sub_version_minor },
        ),
        VersionPath::Current { absolute_offset } => {
            let count = header[SLOT_INDEX_ENTRY_COUNT];
            let entries = read_all_index_v2(bytes, &absolute_offset, count)?;
            Ok(IndexOutcome::Current { entries })
        },
        VersionPath::Unsupported { major_version } => Ok(
            IndexOutcome::Unsupported { major_version },
        ),
    }
}

} // verus!
