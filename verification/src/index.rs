//! The v2/v3 index table: fixed 32-byte records decoded into 9 semantic
//! fields each, located at `index_offset + 4 + i * 32` for slot `i` (the
//! constant `+ 4` skips the 4-byte sub-header word preceding the entry
//! array).

use vstd::prelude::*;

use crate::error::DbpfError;
use crate::error::IndexReadError;
use crate::slicer::slicer_16;
use crate::slicer::slicer_32;
use crate::words::le16_at;
use crate::words::le32_at;
use crate::words::le32_bytes;
use crate::words::word_at;
use crate::words::words_bytes;
use vstd::slice::slice_subrange;
use vstd::slice::slice_to_vec;

verus! {

/// The number of bytes in one v2/v3 index record.
pub const INDEX_ENTRY_BYTES: usize = 32;

/// The number of decoded fields in one v2/v3 index record.
pub const INDEX_ENTRY_FIELDS: usize = 9;

/// The absolute byte position of index record `i` for an index table at
/// `index_offset`: the 4-byte sub-header is skipped, then records are 32
/// bytes apart.
pub open spec fn entry_pos(index_offset: int, i: int) -> int {
    index_offset + 4 + i * 32
}

/// True when the byte source holds record `i` of the index table in full.
pub open spec fn entry_in_bounds(source_len: int, index_offset: int, i: int) -> bool {
    entry_pos(index_offset, i) + INDEX_ENTRY_BYTES <= source_len
}

/// The 9 semantic fields of the 32-byte record at byte position `pos`:
/// type ID, group ID, instance ID high, instance ID low, file location,
/// uncompressed file size (low 28 bits of word 5; the top 4 bits are
/// reserved flags and discarded), compressed file size, compression flag
/// (low half of word 7) and unknown flag (high half of word 7).
pub open spec fn index_entry_fields(b: Seq<u8>, pos: int) -> Seq<u32>
    recommends
        0 <= pos,
        pos + INDEX_ENTRY_BYTES <= b.len(),
{
    seq![
        le32_at(b, pos),
        le32_at(b, pos + 4),
        le32_at(b, pos + 8),
        le32_at(b, pos + 12),
        le32_at(b, pos + 16),
        le32_at(b, pos + 20) & 0x0FFFFFFF,
        le32_at(b, pos + 24),
        le16_at(b, pos + 28),
        le16_at(b, pos + 30),
    ]
}

/// Decodes one raw 32-byte index record into its 9 fields.
pub fn process_index_v2(unprocessed: &[u8]) -> (r: Vec<u32>)
    requires
        unprocessed.len() >= INDEX_ENTRY_BYTES,
    ensures
        r@ == index_entry_fields(unprocessed@, 0),
{
    let mut fields: Vec<u32> = Vec::new();
    fields.push(slicer_32(unprocessed, 0));  // Type ID
    fields.push(slicer_32(unprocessed, 1));  // Group ID
    fields.push(slicer_32(unprocessed, 2));  // Instance ID high
    fields.push(slicer_32(unprocessed, 3));  // Instance ID low
    fields.push(slicer_32(unprocessed, 4));  // File location
    fields.push(slicer_32(unprocessed, 5) & 0x0FFFFFFF);  // File size, uncompressed
    fields.push(slicer_32(unprocessed, 6));  // File size, compressed
    fields.push(slicer_16(unprocessed, 7, 0));  // Compression flag
    fields.push(slicer_16(unprocessed, 7, 2));  // Unknown flag
    proof {
        assert(fields@ =~= index_entry_fields(unprocessed@, 0));
    }
    fields
}

/// Reads the raw 32 bytes of index record `index_number` from the byte
/// source, at absolute position `addr_of_index + 4 + index_number * 32`.
/// Fails with `IoFailure` when the source does not hold the record in full.
pub fn read_index_v2_raw(bytes: &[u8], addr_of_index: &u32, index_number: u32) -> (r: Result<
    Vec<u8>,
    DbpfError,
>)
    ensures
        r is Ok <==> entry_in_bounds(bytes.len() as int, *addr_of_index as int, index_number as int),
        r matches Ok(raw) ==> raw@ == bytes@.subrange(
            entry_pos(*addr_of_index as int, index_number as int),
            entry_pos(*addr_of_index as int, index_number as int) + INDEX_ENTRY_BYTES,
        ),
        r matches Err(e) ==> e is IoFailure,
{
    let pos64: u64 = (*addr_of_index as u64) + 4 + (index_number as u64) * 32;
    let len: usize = bytes.len();
    if pos64 + (INDEX_ENTRY_BYTES as u64) > (len as u64) {
        return Err(DbpfError::IoFailure);
    }
    let pos: usize = pos64 as usize;
    Ok(slice_to_vec(slice_subrange(bytes, pos, pos + INDEX_ENTRY_BYTES)))
}

/// Reads and decodes index record `index_number`: the 9 fields of the
/// 32-byte record at `addr_of_index + 4 + index_number * 32`, or
/// `IoFailure` when the source does not hold that record.
pub fn read_index_v2_processed(bytes: &[u8], addr_of_index: &u32, index_number: u32) -> (r: Result<
    Vec<u32>,
    DbpfError,
>)
    ensures
        r is Ok <==> entry_in_bounds(bytes.len() as int, *addr_of_index as int, index_number as int),
        r matches Ok(fields) ==> fields@ == index_entry_fields(
            bytes@,
            entry_pos(*addr_of_index as int, index_number as int),
        ),
        r matches Err(e) ==> e is IoFailure,
{
    let raw = read_index_v2_raw(bytes, addr_of_index, index_number)?;
    let fields = process_index_v2(raw.as_slice());
    proof {
        let pos = entry_pos(*addr_of_index as int, index_number as int);
        assert forall|k: int| 0 <= k < INDEX_ENTRY_BYTES implies raw@[k] == bytes@[pos + k] by {}
        assert(index_entry_fields(raw@, 0) =~= index_entry_fields(bytes@, pos));
    }
    Ok(fields)
}

/// Reads and decodes the whole index table: the ordered sequence of `count`
/// records, in slot order. Any single-record failure aborts the whole
/// sequence and surfaces the failing slot; a `count` of zero yields an empty
/// sequence with no read at all.
pub fn read_all_index_v2(bytes: &[u8], addr_of_index: &u32, count: u32) -> (r: Result<
    Vec<Vec<u32>>,
    IndexReadError,
>)
    ensures
        r is Ok <==> (forall|i: int|
            0 <= i < count ==> entry_in_bounds(bytes.len() as int, *addr_of_index as int, i)),
        r matches Ok(entries) ==> entries@.len() == count && (forall|i: int|
            0 <= i < count ==> entries@[i]@ == index_entry_fields(
                bytes@,
                entry_pos(*addr_of_index as int, i),
            )),
        r matches Err(e) ==> e.failing_index < count && e.cause is IoFailure
            && !entry_in_bounds(bytes.len() as int, *addr_of_index as int, e.failing_index as int)
            && (forall|j: int|
            0 <= j < e.failing_index ==> entry_in_bounds(
                bytes.len() as int,
                *addr_of_index as int,
                j,
            )),
        count == 0 ==> (r matches Ok(entries) && entries@.len() == 0),
{
    let mut entries: Vec<Vec<u32>> = Vec::new();
    let mut i: u32 = 0;
    while i < count
        invariant
            i <= count,
            entries@.len() == i,
            forall|j: int|
                0 <= j < i ==> entry_in_bounds(bytes.len() as int, *addr_of_index as int, j),
            forall|j: int|
                0 <= j < i ==> entries@[j]@ == index_entry_fields(
                    bytes@,
                    entry_pos(*addr_of_index as int, j),
                ),
        decreases count - i,
    {
        match read_index_v2_processed(bytes, addr_of_index, i) {
            Ok(fields) => {
                entries.push(fields);
            },
            Err(cause) => {
                return Err(IndexReadError { failing_index: i, cause });
            },
        }
        i = i + 1;
    }
    Ok(entries)
}

/// Law: decoding the 32-byte encoding of 8 words recovers the 9 fields
/// exactly: words 0 through 4 and 6 unchanged, word 5 with its top 4 bits
/// masked out, and word 7 split into its low and high 16-bit halves.
pub proof fn lemma_index_entry_round_trip(ws: Seq<u32>)
    requires
        ws.len() == 8,
    ensures
        index_entry_fields(words_bytes(ws), 0) == seq![
            ws[0],
            ws[1],
            ws[2],
            ws[3],
            ws[4],
            ws[5] & 0x0FFFFFFF,
            ws[6],
            ws[7] & 0xFFFF,
            ws[7] >> 16,
        ],
{
    let b = words_bytes(ws);
    crate::words::lemma_words_bytes_len(ws);
    crate::words::lemma_words_round_trip(ws);
    crate::words::lemma_words_bytes_index(ws, 7, 0);
    crate::words::lemma_words_bytes_index(ws, 7, 1);
    crate::words::lemma_words_bytes_index(ws, 7, 2);
    crate::words::lemma_words_bytes_index(ws, 7, 3);
    let w = ws[7];
    assert(b[28] == le32_bytes(w)[0] && b[29] == le32_bytes(w)[1] && b[30] == le32_bytes(w)[2]
        && b[31] == le32_bytes(w)[3]);
    assert(((w & 0xFF) as u8 as u32) | ((((w >> 8) & 0xFF) as u8 as u32) << 8) == w & 0xFFFF)
        by (bit_vector);
    assert((((w >> 16) & 0xFF) as u8 as u32) | ((((w >> 24) & 0xFF) as u8 as u32) << 8) == w >> 16)
        by (bit_vector);
    assert(le16_at(b, 28) == w & 0xFFFF);
    assert(le16_at(b, 30) == w >> 16);
    assert(forall|i: int| 0 <= i < 8 ==> word_at(b, i) == ws[i]);
    assert(le32_at(b, 0) == word_at(b, 0));
    assert(le32_at(b, 4) == word_at(b, 1));
    assert(le32_at(b, 8) == word_at(b, 2));
    assert(le32_at(b, 12) == word_at(b, 3));
    assert(le32_at(b, 16) == word_at(b, 4));
    assert(le32_at(b, 20) == word_at(b, 5));
    assert(le32_at(b, 24) == word_at(b, 6));
    assert(index_entry_fields(b, 0) =~= seq![
        ws[0],
        ws[1],
        ws[2],
        ws[3],
        ws[4],
        ws[5] & 0x0FFFFFFF,
        ws[6],
        ws[7] & 0xFFFF,
        ws[7] >> 16,
    ]);
}

} // verus!
