//! Record layouts and the error taxonomy.
use vstd::prelude::*;

verus! {

/// Why a traversal stopped.
#[derive(Debug, Copy, Clone, PartialEq, Eq, Structural)]
pub enum ErrorKind {
    /// A read or a seek went outside what the stream can serve.
    IoFailure,
    /// The stream is not longer than one end record.
    FileTooSmall,
    /// No end-record signature in the tail window.
    SignatureNotFound,
    /// The end record describes a spanned archive.
    MultiDiskUnsupported,
    /// A central-directory record does not start with its signature.
    InvalidGlobalHeaderSignature,
    /// A local file header does not start with its signature.
    InvalidLocalHeaderSignature,
    /// A central-directory filename does not fit the name workspace.
    FilenameTooLong,
    /// A filename is not UTF-8.
    InvalidUtf8Filename,
    /// A stored entry whose two sizes differ.
    CorruptStoredEntry,
    /// A compression method other than Store and DEFLATE, with its id.
    UnsupportedCompressionMethod(u16),
    /// The DEFLATE decoder rejected the payload.
    DecompressionFailed,
    /// The entry cursor ran past the entry count.
    InvariantViolation,
}

/// The error type of this library: a closed kind with its context.
#[derive(Debug, Copy, Clone, PartialEq, Eq, Structural)]
pub struct MuError(pub ErrorKind);

impl MuError {
    /// The kind of this error.
    pub fn kind(&self) -> (k: ErrorKind)
        ensures
            k == self.0,
    {
        self.0
    }
}

/// The header stored immediately before an entry's payload.
#[derive(Debug, Copy, Clone, PartialEq, Eq, Structural)]
pub struct LocalFileHeader {
    pub signature: u32,
    pub version_needed_to_extract: u16,
    pub general_purpose_bit_flag: u16,
    pub compression_method: u16,
    pub last_mod_file_time: u16,
    pub last_mod_file_date: u16,
    pub crc32: u32,
    pub compressed_size: u32,
    pub uncompressed_size: u32,
    pub file_name_length: u16,
    pub extra_field_length: u16,
}

/// One record of the central directory.
#[derive(Debug, Copy, Clone, PartialEq, Eq, Structural)]
pub struct GlobalFileHeader {
    pub signature: u32,
    pub version_made_by: u16,
    pub version_needed_to_extract: u16,
    pub general_purpose_bit_flag: u16,
    pub compression_method: u16,
    pub last_mod_file_time: u16,
    pub last_mod_file_date: u16,
    pub crc32: u32,
    pub compressed_size: u32,
    pub uncompressed_size: u32,
    pub file_name_length: u16,
    pub extra_field_length: u16,
    pub file_comment_length: u16,
    pub disk_number_start: u16,
    pub internal_file_attributes: u16,
    pub external_file_attributes: u32,
    pub relative_offset_of_local_header: u32,
}

/// What the reader keeps of either header. `offset` is the position of the
/// local file header; it is zero where the value was built from a local
/// header, which does not know its own position.
#[derive(Debug, Copy, Clone, PartialEq, Eq, Structural)]
pub struct InternalHeader {
    pub compression_method: u16,
    pub last_mod_file_time: u16,
    pub last_mod_file_date: u16,
    pub crc32: u32,
    pub compressed_size: u32,
    pub uncompressed_size: u32,
    pub offset: u32,
}

/// The end-of-central-directory record.
#[derive(Debug, Copy, Clone, PartialEq, Eq, Structural)]
pub struct EndRecord {
    pub signature: u32,
    pub disk_number: u16,
    pub central_directory_disk_number: u16,
    pub num_entries_this_disk: u16,
    pub num_entries: u16,
    pub central_directory_size: u32,
    pub central_directory_offset: u32,
    pub zip_comment_length: u16,
}

} // verus!
