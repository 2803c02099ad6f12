//! Finding and validating the end-of-central-directory record.
use vstd::prelude::*;
use crate::bytes::{le_u16, le_u32, read_u16, read_u32};
use crate::types::{EndRecord, ErrorKind, MuError};

verus! {

/// Size of the end record in bytes.
pub const END_RECORD_SIZE: usize = 22;

/// Length of the tail window that is searched for the end record.
pub const SEARCH_WINDOW: usize = 65536;

/// Little-endian signature of the end record.
pub const END_RECORD_SIGNATURE: u32 = 0x06054B50;

/// The end record whose first byte is at `at`.
pub open spec fn end_record_at(s: Seq<u8>, at: int) -> EndRecord {
    EndRecord {
        signature: le_u32(s, at),
        disk_number: le_u16(s, at + 4),
        central_directory_disk_number: le_u16(s, at + 6),
        num_entries_this_disk: le_u16(s, at + 8),
        num_entries: le_u16(s, at + 10),
        central_directory_size: le_u32(s, at + 12),
        central_directory_offset: le_u32(s, at + 16),
        zip_comment_length: le_u16(s, at + 20),
    }
}

/// Whether the four bytes at `at` are the end-record signature.
pub open spec fn has_end_signature(s: Seq<u8>, at: int) -> bool {
    le_u32(s, at) == END_RECORD_SIGNATURE
}

/// First offset of the tail window of a stream of `len` bytes.
pub open spec fn window_start(len: int) -> int {
    if len < SEARCH_WINDOW {
        0
    } else {
        len - SEARCH_WINDOW
    }
}

/// The greatest offset in `lo..=hi` that carries the end-record signature.
pub open spec fn last_signature(s: Seq<u8>, lo: int, hi: int) -> Option<int>
    decreases hi - lo + 1,
{
    if hi < lo {
        None
    } else if has_end_signature(s, hi) {
        Some(hi)
    } else {
        last_signature(s, lo, hi - 1)
    }
}

/// The single-disk constraint on an end record.
pub open spec fn single_disk(er: EndRecord) -> bool {
    er.disk_number == 0 && er.central_directory_disk_number == 0 && er.num_entries
        == er.num_entries_this_disk
}

/// What the end-record locator answers on the stream `s`.
pub open spec fn locate_end_record(s: Seq<u8>) -> Result<EndRecord, MuError> {
    if s.len() <= END_RECORD_SIZE {
        Err(MuError(ErrorKind::FileTooSmall))
    } else {
        match last_signature(s, window_start(s.len() as int), s.len() - END_RECORD_SIZE) {
            None => Err(MuError(ErrorKind::SignatureNotFound)),
            Some(at) => {
                if single_disk(end_record_at(s, at)) {
                    Ok(end_record_at(s, at))
                } else {
                    Err(MuError(ErrorKind::MultiDiskUnsupported))
                }
            },
        }
    }
}

/// `last_signature` is the match nearest the end of the range: it carries
/// the signature, no later offset of the range does, and it is `None` only
/// where no offset of the range does.
pub proof fn lemma_last_signature_is_nearest_end(s: Seq<u8>, lo: int, hi: int)
    ensures
        match last_signature(s, lo, hi) {
            Some(at) => lo <= at <= hi && has_end_signature(s, at) && forall|j: int|
                at < j <= hi ==> !has_end_signature(s, j),
            None => forall|j: int| lo <= j <= hi ==> !has_end_signature(s, j),
        },
    decreases hi - lo + 1,
{
    if hi >= lo && !has_end_signature(s, hi) {
        lemma_last_signature_is_nearest_end(s, lo, hi - 1);
    }
}

/// The locator decides on the record nearest the end of the stream: where
/// `at` carries the signature and no later offset that leaves room for a
/// whole record does, the record at `at` is taken. Signatures that stand
/// before it, or in the last 21 bytes of the stream, change nothing.
pub proof fn lemma_locator_takes_record_nearest_end(s: Seq<u8>, at: int)
    requires
        s.len() > END_RECORD_SIZE,
        window_start(s.len() as int) <= at <= s.len() - END_RECORD_SIZE,
        has_end_signature(s, at),
        forall|j: int| at < j <= s.len() - END_RECORD_SIZE ==> !has_end_signature(s, j),
    ensures
        locate_end_record(s) == if single_disk(end_record_at(s, at)) {
            Ok::<EndRecord, MuError>(end_record_at(s, at))
        } else {
            Err::<EndRecord, MuError>(MuError(ErrorKind::MultiDiskUnsupported))
        },
{
    lemma_last_signature_is_nearest_end(s, window_start(s.len() as int), s.len() - END_RECORD_SIZE);
}

/// The single-disk rule decides the answer once a record is located: a
/// record with a disk number or a central-directory disk number other than
/// zero, or with two entry counts that differ, gives `MultiDiskUnsupported`;
/// any other record is returned as it stands.
pub proof fn lemma_single_disk_only(s: Seq<u8>, at: int)
    requires
        s.len() > END_RECORD_SIZE,
        last_signature(s, window_start(s.len() as int), s.len() - END_RECORD_SIZE) == Some(at),
    ensures
        ({
            let er = end_record_at(s, at);
            er.disk_number != 0 || er.central_directory_disk_number != 0 || er.num_entries
                != er.num_entries_this_disk
        }) ==> locate_end_record(s) == Err::<EndRecord, MuError>(
            MuError(ErrorKind::MultiDiskUnsupported),
        ),
        single_disk(end_record_at(s, at)) ==> locate_end_record(s) == Ok::<EndRecord, MuError>(
            end_record_at(s, at),
        ),
        locate_end_record(s) matches Ok(er) ==> single_disk(er),
{
}

/// Decodes the end record at `at`, field by field.
pub fn parse_end_record(data: &[u8], at: usize) -> (er: EndRecord)
    requires
        at + END_RECORD_SIZE <= data@.len(),
    ensures
        er == end_record_at(data@, at as int),
{
    let _len: usize = data.len();
    EndRecord {
        signature: read_u32(data, at),
        disk_number: read_u16(data, at + 4),
        central_directory_disk_number: read_u16(data, at + 6),
        num_entries_this_disk: read_u16(data, at + 8),
        num_entries: read_u16(data, at + 10),
        central_directory_size: read_u32(data, at + 12),
        central_directory_offset: read_u32(data, at + 16),
        zip_comment_length: read_u16(data, at + 20),
    }
}

/// Finds the end record in the last `SEARCH_WINDOW` bytes of the stream,
/// scanning from the end toward the start, and checks that the archive is
/// on a single disk.
pub fn jz_read_end_record(data: &[u8]) -> (r: Result<EndRecord, MuError>)
    ensures
        r == locate_end_record(data@),
        data@.len() <= END_RECORD_SIZE ==> r == Err::<EndRecord, MuError>(
            MuError(ErrorKind::FileTooSmall),
        ),
        r matches Ok(er) ==> single_disk(er) && er.signature == END_RECORD_SIGNATURE,
{
    let len: usize = data.len();
    if len <= END_RECORD_SIZE {
        return Err(MuError(ErrorKind::FileTooSmall));
    }
    let lo: usize = if len < SEARCH_WINDOW {
        0
    } else {
        len - SEARCH_WINDOW
    };
    let hi: usize = len - END_RECORD_SIZE;
    let mut i: usize = hi + 1;
    while i > lo
        invariant
            len == data@.len(),
            len > END_RECORD_SIZE,
            hi == len - END_RECORD_SIZE,
            lo == window_start(len as int),
            lo <= i <= hi + 1,
            last_signature(data@, lo as int, hi as int) == last_signature(
                data@,
                lo as int,
                i - 1,
            ),
        decreases i,
    {
        i = i - 1;
        if read_u32(data, i) == END_RECORD_SIGNATURE {
            let er = parse_end_record(data, i);
            if er.disk_number != 0 || er.central_directory_disk_number != 0 || er.num_entries
                != er.num_entries_this_disk {
                return Err(MuError(ErrorKind::MultiDiskUnsupported));
            }
            return Ok(er);
        }
    }
    Err(MuError(ErrorKind::SignatureNotFound))
}

} // verus!
