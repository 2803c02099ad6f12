//! Reading the local file header that precedes an entry's payload.
use vstd::prelude::*;
use vstd::utf8::{decode_utf8, valid_utf8};
use crate::bytes::{can_read, le_u16, le_u32, read_exact, read_u16, read_u32, readable};
use crate::types::{ErrorKind, InternalHeader, LocalFileHeader, MuError};

verus! {

/// Size of the fixed part of a local file header in bytes.
pub const LOCAL_HEADER_SIZE: u64 = 30;

/// Little-endian signature of a local file header.
pub const LOCAL_FILE_HEADER_SIGNATURE: u32 = 0x04034B50;

/// The greatest position a cursor can take.
pub const MAX_POSITION: u64 = 0xFFFF_FFFF_FFFF_FFFF;

/// The local file header whose first byte is at `at`.
pub open spec fn local_header_at(s: Seq<u8>, at: int) -> LocalFileHeader {
    LocalFileHeader {
        signature: le_u32(s, at),
        version_needed_to_extract: le_u16(s, at + 4),
        general_purpose_bit_flag: le_u16(s, at + 6),
        compression_method: le_u16(s, at + 8),
        last_mod_file_time: le_u16(s, at + 10),
        last_mod_file_date: le_u16(s, at + 12),
        crc32: le_u32(s, at + 14),
        compressed_size: le_u32(s, at + 18),
        uncompressed_size: le_u32(s, at + 22),
        file_name_length: le_u16(s, at + 26),
        extra_field_length: le_u16(s, at + 28),
    }
}

/// The fields of a local header that the reader keeps; `offset` is zero.
pub open spec fn internal_of_local(h: LocalFileHeader) -> InternalHeader {
    InternalHeader {
        compression_method: h.compression_method,
        last_mod_file_time: h.last_mod_file_time,
        last_mod_file_date: h.last_mod_file_date,
        crc32: h.crc32,
        compressed_size: h.compressed_size,
        uncompressed_size: h.uncompressed_size,
        offset: 0,
    }
}

/// The Store-method rule: a stored entry has equal sizes.
pub open spec fn store_sizes_agree(h: LocalFileHeader) -> bool {
    h.compression_method == 0 ==> h.compressed_size == h.uncompressed_size
}

/// What reading the local header at `at` gives: the header, the filename
/// and the position of the payload, which follows the filename and the
/// extra field; or the first failure, in the order in which the reader
/// meets them.
pub open spec fn local_header_result(s: Seq<u8>, at: int) -> Result<
    (LocalFileHeader, Seq<char>, int),
    MuError,
> {
    let h = local_header_at(s, at);
    let name_at = at + LOCAL_HEADER_SIZE;
    let name_end = name_at + h.file_name_length;
    let name = s.subrange(name_at, name_end);
    if !readable(s, at, LOCAL_HEADER_SIZE as int) {
        Err(MuError(ErrorKind::IoFailure))
    } else if h.signature != LOCAL_FILE_HEADER_SIGNATURE {
        Err(MuError(ErrorKind::InvalidLocalHeaderSignature))
    } else if !readable(s, name_at, h.file_name_length as int) {
        Err(MuError(ErrorKind::IoFailure))
    } else if !valid_utf8(name) {
        Err(MuError(ErrorKind::InvalidUtf8Filename))
    } else if name_end + h.extra_field_length > MAX_POSITION {
        Err(MuError(ErrorKind::IoFailure))
    } else if !store_sizes_agree(h) {
        Err(MuError(ErrorKind::CorruptStoredEntry))
    } else {
        Ok((h, decode_utf8(name), name_end + h.extra_field_length))
    }
}

/// Calls `std::str::from_utf8`. The contract claims what its documentation
/// says: the call succeeds exactly on well-formed UTF-8, and the text it
/// then returns is the decoding of the given bytes.
#[verifier::external_body]
pub(crate) fn text_from_utf8<'a>(bytes: &'a [u8]) -> (r: Option<&'a str>)
    ensures
        r is Some <==> valid_utf8(bytes@),
        r matches Some(t) ==> t@ == decode_utf8(bytes@),
{
    match std::str::from_utf8(bytes) {
        Ok(t) => Some(t),
        Err(_) => None,
    }
}

/// Decodes the local file header at `at`, field by field.
pub fn parse_local_header(data: &[u8], at: usize) -> (h: LocalFileHeader)
    requires
        at + LOCAL_HEADER_SIZE <= data@.len(),
    ensures
        h == local_header_at(data@, at as int),
{
    let _len: usize = data.len();
    LocalFileHeader {
        signature: read_u32(data, at),
        version_needed_to_extract: read_u16(data, at + 4),
        general_purpose_bit_flag: read_u16(data, at + 6),
        compression_method: read_u16(data, at + 8),
        last_mod_file_time: read_u16(data, at + 10),
        last_mod_file_date: read_u16(data, at + 12),
        crc32: read_u32(data, at + 14),
        compressed_size: read_u32(data, at + 18),
        uncompressed_size: read_u32(data, at + 22),
        file_name_length: read_u16(data, at + 26),
        extra_field_length: read_u16(data, at + 28),
    }
}

/// Reads the local file header and the filename at `at`, skips the extra
/// field and enforces the Store-method rule. Returns the header, the
/// filename and the position of the payload.
pub fn jz_read_local_file_header_raw(data: &[u8], at: u64) -> (r: Result<
    (LocalFileHeader, String, u64),
    MuError,
>)
    ensures
        match r {
            Ok((h, name, payload)) => local_header_result(data@, at as int) matches Ok(v) && v == (
                h,
                name@,
                payload as int,
            ),
            Err(e) => local_header_result(data@, at as int) matches Err(x) && x == e,
        },
        r matches Ok((h, _, _)) ==> h.signature == LOCAL_FILE_HEADER_SIGNATURE
            && store_sizes_agree(h),
{
    if !can_read(data, at, LOCAL_HEADER_SIZE) {
        return Err(MuError(ErrorKind::IoFailure));
    }
    let _len: usize = data.len();
    let header = parse_local_header(data, at as usize);
    if header.signature != LOCAL_FILE_HEADER_SIGNATURE {
        return Err(MuError(ErrorKind::InvalidLocalHeaderSignature));
    }
    let name_at: u64 = at + LOCAL_HEADER_SIZE;
    let name_len: u64 = header.file_name_length as u64;
    if !can_read(data, name_at, name_len) {
        return Err(MuError(ErrorKind::IoFailure));
    }
    let name_bytes = read_exact(data, name_at, name_len);
    let filename: String = match text_from_utf8(name_bytes.as_slice()) {
        Some(t) => t.to_owned(),
        None => {
            return Err(MuError(ErrorKind::InvalidUtf8Filename));
        },
    };
    let name_end: u64 = name_at + name_len;
    let extra: u64 = header.extra_field_length as u64;
    if extra > MAX_POSITION - name_end {
        return Err(MuError(ErrorKind::IoFailure));
    }
    if header.compression_method == 0 && header.compressed_size != header.uncompressed_size {
        return Err(MuError(ErrorKind::CorruptStoredEntry));
    }
    Ok((header, filename, name_end + extra))
}

/// Reads the local file header at `at` and keeps the fields that the
/// payload decoder needs. The `offset` field of the result is zero and
/// carries no meaning.
pub fn jz_read_local_file_header(data: &[u8], at: u64) -> (r: Result<
    (InternalHeader, String, u64),
    MuError,
>)
    ensures
        match r {
            Ok((h, name, payload)) => local_header_result(data@, at as int) matches Ok(v) && (
                h,
                name@,
                payload as int,
            ) == (internal_of_local(v.0), v.1, v.2),
            Err(e) => local_header_result(data@, at as int) matches Err(x) && x == e,
        },
{
    match jz_read_local_file_header_raw(data, at) {
        Ok((local, filename, payload)) => {
            let header = InternalHeader {
                compression_method: local.compression_method,
                last_mod_file_time: local.last_mod_file_time,
                last_mod_file_date: local.last_mod_file_date,
                crc32: local.crc32,
                compressed_size: local.compressed_size,
                uncompressed_size: local.uncompressed_size,
                offset: 0,
            };
            Ok((header, filename, payload))
        },
        Err(e) => Err(e),
    }
}

} // verus!
