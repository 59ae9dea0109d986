//! The fixed 96-byte DBPF header: signature validation and decoding into 24
//! positional little-endian 32-bit words.

use vstd::prelude::*;

use crate::error::DbpfError;
use crate::slicer::slicer_32;
use crate::slicer::slicer_raw;
use crate::words::word_at;
use vstd::slice::slice_subrange;
use vstd::slice::slice_to_vec;

verus! {

/// The number of bytes in a DBPF header.
pub const HEADER_BYTES: usize = 96;

/// The number of 32-bit words in a DBPF header.
pub const HEADER_WORDS: usize = 24;

/// The four signature bytes, the ASCII literal "DBPF".
pub open spec fn dbpf_signature() -> Seq<u8> {
    seq![0x44u8, 0x42u8, 0x50u8, 0x46u8]
}

/// True when the buffer starts with the signature "DBPF".
pub open spec fn has_dbpf_signature(b: Seq<u8>) -> bool {
    b.len() >= 4 && b.subrange(0, 4) == dbpf_signature()
}

/// Confirms that the 4 given bytes are the ASCII literal "DBPF". On any
/// other value the failure carries the bytes actually found, so a caller can
/// render them as it sees fit.
pub fn check_signature(signature_bytes: &[u8; 4]) -> (r: Result<(), DbpfError>)
    ensures
        r is Ok <==> signature_bytes@ == dbpf_signature(),
        r matches Err(e) ==> e matches DbpfError::InvalidSignatureFailure { found } && found@
            == signature_bytes@,
{
    if signature_bytes[0] == 0x44 && signature_bytes[1] == 0x42 && signature_bytes[2] == 0x50
        && signature_bytes[3] == 0x46 {
        proof {
            assert(signature_bytes@ =~= dbpf_signature());
        }
        Ok(())
    } else {
        Err(DbpfError::InvalidSignatureFailure { found: *signature_bytes })
    }
}

/// Reads the raw 96 header bytes from the front of the byte source, after
/// validating the signature. Fails with `IoFailure` when fewer than 96 bytes
/// are available, and with `InvalidSignatureFailure` when the first 4 bytes
/// are not "DBPF".
pub fn read_header_raw(bytes: &[u8]) -> (r: Result<Vec<u8>, DbpfError>)
    ensures
        r is Ok <==> bytes.len() >= HEADER_BYTES && has_dbpf_signature(bytes@),
        r matches Ok(h) ==> h@ == bytes@.subrange(0, HEADER_BYTES as int),
        bytes.len() < HEADER_BYTES ==> (r matches Err(e) && e is IoFailure),
        bytes.len() >= HEADER_BYTES && !has_dbpf_signature(bytes@) ==> (r matches Err(e)
            && e matches DbpfError::InvalidSignatureFailure { found } && found@
            == bytes@.subrange(0, 4)),
{
    if bytes.len() < HEADER_BYTES {
        return Err(DbpfError::IoFailure);
    }
    let signature = slicer_raw(bytes, 0);
    if let Err(e) = check_signature(&signature) {
        return Err(e);
    }
    Ok(slice_to_vec(slice_subrange(bytes, 0, HEADER_BYTES)))
}

/// Decodes the raw 96 header bytes into the 24 positional 32-bit words. The
/// word in slot `i` is the little-endian value of bytes `[4*i, 4*i + 4)`.
pub fn process_header(header_data_raw: &[u8]) -> (r: Result<Vec<u32>, DbpfError>)
    requires
        header_data_raw.len() >= HEADER_BYTES,
    ensures
        r matches Ok(words) && words@.len() == HEADER_WORDS && (forall|i: int|
            0 <= i < HEADER_WORDS ==> words@[i] == word_at(header_data_raw@, i)),
{
    let mut words: Vec<u32> = Vec::new();
    let mut i: usize = 0;
    while i < HEADER_WORDS
        invariant
            i <= HEADER_WORDS,
            header_data_raw.len() >= HEADER_BYTES,
            words@.len() == i,
            forall|j: int| 0 <= j < i ==> words@[j] == word_at(header_data_raw@, j),
        decreases HEADER_WORDS - i,
    {
        let w = slicer_32(header_data_raw, i);
        words.push(w);
        i = i + 1;
    }
    Ok(words)
}

/// Reads and fully decodes the header from the front of the byte source: on
/// success the 24 words, each the little-endian value of its 4-byte slot; on
/// too short a source `IoFailure`; on a wrong signature
/// `InvalidSignatureFailure` with the bytes found, and no field is decoded.
pub fn read_header_processed(bytes: &[u8]) -> (r: Result<Vec<u32>, DbpfError>)
    ensures
        r is Ok <==> bytes.len() >= HEADER_BYTES && has_dbpf_signature(bytes@),
        r matches Ok(words) ==> words@.len() == HEADER_WORDS && (forall|i: int|
            0 <= i < HEADER_WORDS ==> words@[i] == word_at(bytes@, i)),
        bytes.len() < HEADER_BYTES ==> (r matches Err(e) && e is IoFailure),
        bytes.len() >= HEADER_BYTES && !has_dbpf_signature(bytes@) ==> (r matches Err(e)
            && e matches DbpfError::InvalidSignatureFailure { found } && found@
            == bytes@.subrange(0, 4)),
{
    let header_raw = read_header_raw(bytes)?;
    let r = process_header(header_raw.as_slice());
    proof {
        assert forall|i: int| 0 <= i < HEADER_WORDS implies word_at(header_raw@, i) == word_at(
            bytes@,
            i,
        ) by {
            assert(header_raw@[4 * i] == bytes@[4 * i]);
            assert(header_raw@[4 * i + 1] == bytes@[4 * i + 1]);
            assert(header_raw@[4 * i + 2] == bytes@[4 * i + 2]);
            assert(header_raw@[4 * i + 3] == bytes@[4 * i + 3]);
        }
    }
    r
}

} // verus!
