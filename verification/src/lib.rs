//! Decoder for the DBPF game-archive container format: signature validation,
//! header field extraction, and index-entry decoding for the two header
//! generations (1.x and 2.x/3.x) the format has used.

pub mod error;
pub mod header;
pub mod index;
pub mod slicer;
pub mod version;
pub mod words;
