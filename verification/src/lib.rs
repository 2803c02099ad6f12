//! A reader for single-disk ZIP archives held in memory.
//!
//! The archive is a byte sequence. The end record is found by a backward
//! scan over the tail of the archive, the central directory is walked in
//! order, and each entry's payload is fetched through its local file header
//! and decoded (Store or DEFLATE).
pub mod types;
pub mod bytes;
pub mod end_record;
pub mod local;
pub mod decode;
pub mod walker;
pub mod laws;

pub use types::{EndRecord, ErrorKind, GlobalFileHeader, InternalHeader, LocalFileHeader, MuError};
pub use walker::{ZipEntry, ZipIterator};
