//! End-to-end checks of the DBPF decoding core on concrete byte buffers.

use dbpf::error::DbpfError;
use dbpf::header::check_signature;
use dbpf::header::process_header;
use dbpf::header::read_header_processed;
use dbpf::header::read_header_raw;
use dbpf::index::process_index_v2;
use dbpf::index::read_all_index_v2;
use dbpf::index::read_index_v2_processed;
use dbpf::index::read_index_v2_raw;
use dbpf::slicer::slicer_16;
use dbpf::slicer::slicer_32;
use dbpf::slicer::slicer_raw;
use dbpf::version::classify_version;
use dbpf::version::read_index_for_version;
use dbpf::version::IndexOutcome;
use dbpf::version::VersionPath;

/// A 96-byte header whose word in slot `i` is `words[i]`, with "DBPF" taking
/// slot 0 when `words[0]` is the signature value.
fn header_bytes(words: &[u32; 24]) -> Vec<u8> {
    let mut bytes = Vec::new();
    for w in words.iter() {
        bytes.extend_from_slice(&w.to_le_bytes());
    }
    bytes
}

const SIGNATURE_WORD: u32 = 0x46504244; // "DBPF" little-endian

fn valid_header_words() -> [u32; 24] {
    let mut words = [0u32; 24];
    words[0] = SIGNATURE_WORD;
    for (i, w) in words.iter_mut().enumerate().skip(1) {
        *w = (i as u32) * 0x01010101;
    }
    words
}

#[test]
fn header_decodes_every_slot() {
    let words = valid_header_words();
    let bytes = header_bytes(&words);
    let decoded = read_header_processed(&bytes).unwrap();
    assert_eq!(decoded.len(), 24);
    for i in 0..24 {
        assert_eq!(decoded[i], words[i]);
    }
}

#[test]
fn header_decodes_little_endian() {
    let mut bytes = vec![0u8; 96];
    bytes[0..4].copy_from_slice(b"DBPF");
    // slot 1 holds bytes 0x78 0x56 0x34 0x12, little-endian 0x12345678
    bytes[4] = 0x78;
    bytes[5] = 0x56;
    bytes[6] = 0x34;
    bytes[7] = 0x12;
    let decoded = read_header_processed(&bytes).unwrap();
    assert_eq!(decoded[1], 0x12345678);
}

#[test]
fn wrong_signature_is_rejected_with_found_bytes() {
    let mut words = valid_header_words();
    words[0] = u32::from_le_bytes(*b"DBZZ");
    let bytes = header_bytes(&words);
    match read_header_processed(&bytes) {
        Err(DbpfError::InvalidSignatureFailure { found }) => {
            assert_eq!(&found, b"DBZZ");
        }
        other => panic!("expected an invalid-signature failure, got {:?}", other),
    }
}

#[test]
fn short_header_is_an_io_failure() {
    let bytes = vec![0x44u8, 0x42, 0x50, 0x46, 0, 0, 0];
    assert_eq!(read_header_processed(&bytes), Err(DbpfError::IoFailure));
    assert_eq!(read_header_raw(&bytes), Err(DbpfError::IoFailure));
}

#[test]
fn empty_buffer_is_an_io_failure() {
    let bytes: Vec<u8> = Vec::new();
    assert_eq!(read_header_processed(&bytes), Err(DbpfError::IoFailure));
}

#[test]
fn check_signature_accepts_only_dbpf() {
    assert!(check_signature(b"DBPF").is_ok());
    match check_signature(b"DBZZ") {
        Err(DbpfError::InvalidSignatureFailure { found }) => assert_eq!(&found, b"DBZZ"),
        other => panic!("expected an invalid-signature failure, got {:?}", other),
    }
}

#[test]
fn process_header_reads_all_words() {
    let words = valid_header_words();
    let bytes = header_bytes(&words);
    let decoded = process_header(&bytes).unwrap();
    assert_eq!(decoded.len(), 24);
    for i in 0..24 {
        assert_eq!(decoded[i], words[i]);
    }
}

/// A 32-byte index record whose word `i` is `words[i]`.
fn entry_bytes(words: &[u32; 8]) -> Vec<u8> {
    let mut bytes = Vec::new();
    for w in words.iter() {
        bytes.extend_from_slice(&w.to_le_bytes());
    }
    bytes
}

#[test]
fn uncompressed_size_masks_top_four_bits() {
    let mut words = [0u32; 8];
    words[5] = 0xF0000010;
    let record = entry_bytes(&words);
    let fields = process_index_v2(&record);
    assert_eq!(fields[5], 0x00000010);
}

#[test]
fn word_seven_splits_into_two_halves() {
    let mut record = vec![0u8; 32];
    record[28..32].copy_from_slice(&[0x05, 0x00, 0x01, 0x00]);
    let fields = process_index_v2(&record);
    assert_eq!(fields[7], 0x0005);
    assert_eq!(fields[8], 0x0001);
}

#[test]
fn entry_fields_decode_in_order() {
    let words: [u32; 8] = [
        0x11111111, 0x22222222, 0x33333333, 0x44444444, 0x55555555, 0x06666666, 0x77777777,
        0x00020001,
    ];
    let record = entry_bytes(&words);
    let fields = process_index_v2(&record);
    assert_eq!(
        fields,
        vec![
            0x11111111, 0x22222222, 0x33333333, 0x44444444, 0x55555555, 0x06666666, 0x77777777,
            0x0001, 0x0002
        ]
    );
}

#[test]
fn entry_is_read_at_offset_plus_four_plus_stride() {
    // indexOffset = 100, i = 3: the record starts at absolute byte 200.
    let mut bytes = vec![0u8; 232];
    let words: [u32; 8] = [10, 20, 30, 40, 50, 60, 70, 0x000B000A];
    bytes[200..232].copy_from_slice(&entry_bytes(&words));
    let raw = read_index_v2_raw(&bytes, &100, 3).unwrap();
    assert_eq!(raw, bytes[200..232].to_vec());
    let fields = read_index_v2_processed(&bytes, &100, 3).unwrap();
    assert_eq!(fields, vec![10, 20, 30, 40, 50, 60, 70, 0x000A, 0x000B]);
}

#[test]
fn entry_out_of_range_is_an_io_failure() {
    let bytes = vec![0u8; 231]; // one byte short of record 3 at offset 100
    assert_eq!(read_index_v2_raw(&bytes, &100, 3), Err(DbpfError::IoFailure));
    assert_eq!(
        read_index_v2_processed(&bytes, &100, 3),
        Err(DbpfError::IoFailure)
    );
}

#[test]
fn zero_entries_need_no_bytes_beyond_the_header() {
    let bytes = vec![0u8; 96];
    let entries = read_all_index_v2(&bytes, &5000, 0).unwrap();
    assert!(entries.is_empty());
}

#[test]
fn all_entries_come_back_in_slot_order() {
    let offset: u32 = 10;
    let mut bytes = vec![0u8; 10 + 4 + 3 * 32];
    for i in 0..3u32 {
        let words: [u32; 8] = [i, i + 100, 0, 0, 0, 0, 0, 0];
        let start = (offset + 4 + i * 32) as usize;
        bytes[start..start + 32].copy_from_slice(&entry_bytes(&words));
    }
    let entries = read_all_index_v2(&bytes, &offset, 3).unwrap();
    assert_eq!(entries.len(), 3);
    for i in 0..3u32 {
        assert_eq!(entries[i as usize][0], i);
        assert_eq!(entries[i as usize][1], i + 100);
    }
}

#[test]
fn a_failing_entry_surfaces_its_slot() {
    let offset: u32 = 0;
    let bytes = vec![0u8; 4 + 2 * 32]; // room for records 0 and 1 only
    let err = read_all_index_v2(&bytes, &offset, 5).unwrap_err();
    assert_eq!(err.failing_index, 2);
    assert_eq!(err.cause, DbpfError::IoFailure);
}

#[test]
fn major_version_one_takes_the_legacy_path() {
    let mut words = valid_header_words();
    words[1] = 1;
    words[10] = 0x1234; // relative index offset
    words[15] = 7; // raw index minor version; effective value is 6
    assert_eq!(
        classify_version(&words),
        VersionPath::LegacyV1 {
            relative_offset: 0x1234,
            sub_version_minor: 6
        }
    );
    let bytes = header_bytes(&words);
    match read_index_for_version(&bytes, &words).unwrap() {
        IndexOutcome::LegacyV1 {
            relative_offset,
            sub_version_minor,
        } => {
            assert_eq!(relative_offset, 0x1234);
            assert_eq!(sub_version_minor, 6);
        }
        other => panic!("expected the legacy path, got {:?}", other),
    }
}

#[test]
fn legacy_sub_version_wraps_on_zero() {
    let mut words = valid_header_words();
    words[1] = 1;
    words[15] = 0;
    match classify_version(&words) {
        VersionPath::LegacyV1 {
            sub_version_minor, ..
        } => assert_eq!(sub_version_minor, u32::MAX),
        other => panic!("expected the legacy path, got {:?}", other),
    }
}

#[test]
fn major_versions_two_and_three_take_the_current_path() {
    for major in [2u32, 3] {
        let mut words = valid_header_words();
        words[1] = major;
        words[9] = 0; // entry count
        words[16] = 96; // absolute index offset
        assert_eq!(
            classify_version(&words),
            VersionPath::Current {
                absolute_offset: 96
            }
        );
        let bytes = header_bytes(&words);
        match read_index_for_version(&bytes, &words).unwrap() {
            IndexOutcome::Current { entries } => assert!(entries.is_empty()),
            other => panic!("expected the current path, got {:?}", other),
        }
    }
}

#[test]
fn unknown_major_version_yields_the_empty_outcome() {
    let mut words = valid_header_words();
    words[1] = 9;
    assert_eq!(
        classify_version(&words),
        VersionPath::Unsupported { major_version: 9 }
    );
    let bytes = header_bytes(&words);
    match read_index_for_version(&bytes, &words).unwrap() {
        IndexOutcome::Unsupported { major_version } => assert_eq!(major_version, 9),
        other => panic!("expected the unsupported outcome, got {:?}", other),
    }
}

#[test]
fn synthetic_archive_round_trips_end_to_end() {
    // A version 2 archive: header, one 4-byte index sub-header word, two
    // index records. Every decoded value must equal the value encoded.
    let index_offset: u32 = 96;
    let count: u32 = 2;
    let mut words = valid_header_words();
    words[1] = 2;
    words[2] = 1;
    words[9] = count;
    words[16] = index_offset;
    let record_a: [u32; 8] = [
        0xAAAA0001, 0xBBBB0002, 0xCCCC0003, 0xDDDD0004, 0x00000060, 0xF0000010, 0x00000020,
        0x00010005,
    ];
    let record_b: [u32; 8] = [1, 2, 3, 4, 5, 6, 7, 8];
    let mut bytes = header_bytes(&words);
    bytes.extend_from_slice(&[0u8; 4]); // index sub-header
    bytes.extend_from_slice(&entry_bytes(&record_a));
    bytes.extend_from_slice(&entry_bytes(&record_b));

    let header = read_header_processed(&bytes).unwrap();
    for i in 0..24 {
        assert_eq!(header[i], words[i]);
    }
    match read_index_for_version(&bytes, &header).unwrap() {
        IndexOutcome::Current { entries } => {
            assert_eq!(entries.len(), 2);
            assert_eq!(
                entries[0],
                vec![
                    0xAAAA0001, 0xBBBB0002, 0xCCCC0003, 0xDDDD0004, 0x00000060, 0x00000010,
                    0x00000020, 0x0005, 0x0001
                ]
            );
            assert_eq!(entries[1], vec![1, 2, 3, 4, 5, 6, 7, 0x0008, 0x0000]);
        }
        other => panic!("expected the current path, got {:?}", other),
    }
}

#[test]
fn slicers_extract_fields() {
    let bytes: Vec<u8> = vec![0x01, 0x02, 0x03, 0x04, 0xAA, 0xBB, 0xCC, 0xDD];
    assert_eq!(slicer_32(&bytes, 0), 0x04030201);
    assert_eq!(slicer_32(&bytes, 1), 0xDDCCBBAA);
    assert_eq!(slicer_raw(&bytes, 1), [0xAA, 0xBB, 0xCC, 0xDD]);
    assert_eq!(slicer_16(&bytes, 0, 0), 0x0201);
    assert_eq!(slicer_16(&bytes, 0, 2), 0x0403);
    assert_eq!(slicer_16(&bytes, 1, 1), 0xCCBB);
}
