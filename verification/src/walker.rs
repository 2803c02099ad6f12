//! Walking the central directory and materialising the entries.
use vstd::prelude::*;
use vstd::utf8::valid_utf8;
use crate::bytes::{can_read, le_u16, le_u32, read_exact, read_u16, read_u32, readable};
use crate::decode::{jz_read_data, payload_result};
use crate::end_record::{jz_read_end_record, locate_end_record};
use crate::local::{
    internal_of_local,
    jz_read_local_file_header,
    local_header_result,
    text_from_utf8,
    MAX_POSITION,
};
use crate::types::{EndRecord, ErrorKind, GlobalFileHeader, InternalHeader, MuError};

verus! {

/// Size of the fixed part of a central-directory record in bytes.
pub const GLOBAL_HEADER_SIZE: u64 = 46;

/// Little-endian signature of a central-directory record.
pub const GLOBAL_FILE_HEADER_SIGNATURE: u32 = 0x02014B50;

/// Capacity of the name workspace: a filename and its terminator must fit
/// strictly below it.
pub const NAME_CAPACITY: u64 = 65536;

/// The central-directory record whose first byte is at `at`.
pub open spec fn global_header_at(s: Seq<u8>, at: int) -> GlobalFileHeader {
    GlobalFileHeader {
        signature: le_u32(s, at),
        version_made_by: le_u16(s, at + 4),
        version_needed_to_extract: le_u16(s, at + 6),
        general_purpose_bit_flag: le_u16(s, at + 8),
        compression_method: le_u16(s, at + 10),
        last_mod_file_time: le_u16(s, at + 12),
        last_mod_file_date: le_u16(s, at + 14),
        crc32: le_u32(s, at + 16),
        compressed_size: le_u32(s, at + 20),
        uncompressed_size: le_u32(s, at + 24),
        file_name_length: le_u16(s, at + 28),
        extra_field_length: le_u16(s, at + 30),
        file_comment_length: le_u16(s, at + 32),
        disk_number_start: le_u16(s, at + 34),
        internal_file_attributes: le_u16(s, at + 36),
        external_file_attributes: le_u32(s, at + 38),
        relative_offset_of_local_header: le_u32(s, at + 42),
    }
}

/// The descriptor built from a central-directory record.
pub open spec fn internal_of_global(g: GlobalFileHeader) -> InternalHeader {
    InternalHeader {
        compression_method: g.compression_method,
        last_mod_file_time: g.last_mod_file_time,
        last_mod_file_date: g.last_mod_file_date,
        crc32: g.crc32,
        compressed_size: g.compressed_size,
        uncompressed_size: g.uncompressed_size,
        offset: g.relative_offset_of_local_header,
    }
}

/// What an entry is: its descriptor, its decompressed bytes and its name.
pub struct EntryModel {
    pub header: InternalHeader,
    pub buffer: Seq<u8>,
    pub filename: Seq<char>,
}

/// One entry of the archive, fully decompressed.
pub struct ZipEntry {
    header: InternalHeader,
    buffer: Vec<u8>,
    filename: String,
}

impl View for ZipEntry {
    type V = EntryModel;

    closed spec fn view(&self) -> EntryModel {
        EntryModel { header: self.header, buffer: self.buffer@, filename: self.filename@ }
    }
}

impl ZipEntry {
    /// The descriptor from the central directory.
    pub fn header(&self) -> (h: InternalHeader)
        ensures
            h == self@.header,
    {
        self.header
    }

    /// The decompressed bytes.
    pub fn buffer(&self) -> (b: &Vec<u8>)
        ensures
            b@ == self@.buffer,
    {
        &self.buffer
    }

    /// The name from the local file header.
    pub fn filename(&self) -> (n: &String)
        ensures
            n@ == self@.filename,
    {
        &self.filename
    }
}

/// The model of one yielded item.
pub open spec fn item_view(item: Result<ZipEntry, MuError>) -> Result<EntryModel, MuError> {
    match item {
        Ok(entry) => Ok(entry@),
        Err(e) => Err(e),
    }
}

/// What the detour to the local header at `at` brings back: the filename
/// found there and the decoded payload that follows it.
pub open spec fn fetch_result(s: Seq<u8>, at: int) -> Result<(Seq<char>, Seq<u8>), MuError> {
    match local_header_result(s, at) {
        Err(e) => Err(e),
        Ok(v) => match payload_result(s, v.2, internal_of_local(v.0)) {
            Err(e) => Err(e),
            Ok(bytes) => Ok((v.1, bytes)),
        },
    }
}

/// One step of the walk with the cursor at `cursor`: the entry and the
/// cursor after the record, its filename, extra field and comment; or the
/// first failure, in the order in which the walker meets them.
pub open spec fn step_result(s: Seq<u8>, cursor: int) -> Result<(EntryModel, int), MuError> {
    let g = global_header_at(s, cursor);
    let name_at = cursor + GLOBAL_HEADER_SIZE;
    let name_end = name_at + g.file_name_length;
    let next = name_end + g.extra_field_length + g.file_comment_length;
    if !readable(s, cursor, GLOBAL_HEADER_SIZE as int) {
        Err(MuError(ErrorKind::IoFailure))
    } else if g.signature != GLOBAL_FILE_HEADER_SIGNATURE {
        Err(MuError(ErrorKind::InvalidGlobalHeaderSignature))
    } else if g.file_name_length + 1 >= NAME_CAPACITY {
        Err(MuError(ErrorKind::FilenameTooLong))
    } else if !readable(s, name_at, g.file_name_length as int) {
        Err(MuError(ErrorKind::IoFailure))
    } else if !valid_utf8(s.subrange(name_at, name_end)) {
        Err(MuError(ErrorKind::InvalidUtf8Filename))
    } else if next > MAX_POSITION {
        Err(MuError(ErrorKind::IoFailure))
    } else {
        match fetch_result(s, g.relative_offset_of_local_header as int) {
            Err(e) => Err(e),
            Ok(found) => Ok(
                (EntryModel { header: internal_of_global(g), buffer: found.1, filename: found.0 }, next),
            ),
        }
    }
}

/// The items that a walk yields with `remaining` entries to go and the
/// cursor at `cursor`: the entries in central-directory order, cut after
/// the first failure.
pub open spec fn entries_from(s: Seq<u8>, remaining: nat, cursor: int) -> Seq<
    Result<EntryModel, MuError>,
>
    decreases remaining,
{
    if remaining == 0 {
        Seq::empty()
    } else {
        match step_result(s, cursor) {
            Err(e) => seq![Err(e)],
            Ok(v) => seq![Ok(v.0)] + entries_from(s, (remaining - 1) as nat, v.1),
        }
    }
}

/// The items that the archive `s` yields, or why no walk starts.
pub open spec fn archive_entries(s: Seq<u8>) -> Result<Seq<Result<EntryModel, MuError>>, MuError> {
    match locate_end_record(s) {
        Err(e) => Err(e),
        Ok(er) => Ok(entries_from(s, er.num_entries as nat, er.central_directory_offset as int)),
    }
}

/// Decodes the central-directory record at `at`, field by field.
pub fn parse_global_header(data: &[u8], at: usize) -> (g: GlobalFileHeader)
    requires
        at + GLOBAL_HEADER_SIZE <= data@.len(),
    ensures
        g == global_header_at(data@, at as int),
{
    let _len: usize = data.len();
    GlobalFileHeader {
        signature: read_u32(data, at),
        version_made_by: read_u16(data, at + 4),
        version_needed_to_extract: read_u16(data, at + 6),
        general_purpose_bit_flag: read_u16(data, at + 8),
        compression_method: read_u16(data, at + 10),
        last_mod_file_time: read_u16(data, at + 12),
        last_mod_file_date: read_u16(data, at + 14),
        crc32: read_u32(data, at + 16),
        compressed_size: read_u32(data, at + 20),
        uncompressed_size: read_u32(data, at + 24),
        file_name_length: read_u16(data, at + 28),
        extra_field_length: read_u16(data, at + 30),
        file_comment_length: read_u16(data, at + 32),
        disk_number_start: read_u16(data, at + 34),
        internal_file_attributes: read_u16(data, at + 36),
        external_file_attributes: read_u32(data, at + 38),
        relative_offset_of_local_header: read_u32(data, at + 42),
    }
}

/// A lazy walk over the entries of an archive held in memory.
pub struct ZipIterator {
    data: Vec<u8>,
    end_rec: EndRecord,
    next_entry: u16,
    cursor: u64,
    finished: bool,
}

impl ZipIterator {
    /// The archive that is walked.
    pub closed spec fn archive(&self) -> Seq<u8> {
        self.data@
    }

    /// The end record that the walk was started from.
    pub closed spec fn end_record(&self) -> EndRecord {
        self.end_rec
    }

    /// The items that are still to come, in order. A cursor beyond the
    /// entry count leaves the single item `InvariantViolation`.
    pub closed spec fn pending(&self) -> Seq<Result<EntryModel, MuError>> {
        if self.finished {
            Seq::empty()
        } else if self.next_entry > self.end_rec.num_entries {
            seq![Err(MuError(ErrorKind::InvariantViolation))]
        } else {
            entries_from(
                self.data@,
                (self.end_rec.num_entries - self.next_entry) as nat,
                self.cursor as int,
            )
        }
    }

    /// Locates the end record and places the cursor at the start of the
    /// central directory.
    pub fn new(data: Vec<u8>) -> (r: Result<ZipIterator, MuError>)
        ensures
            match r {
                Ok(it) => {
                    &&& it.archive() == data@
                    &&& locate_end_record(data@) == Ok::<EndRecord, MuError>(it.end_record())
                    &&& archive_entries(data@) == Ok::<Seq<Result<EntryModel, MuError>>, MuError>(
                        it.pending(),
                    )
                },
                Err(e) => {
                    &&& locate_end_record(data@) == Err::<EndRecord, MuError>(e)
                    &&& archive_entries(data@) == Err::<Seq<Result<EntryModel, MuError>>, MuError>(
                        e,
                    )
                },
            },
    {
        match jz_read_end_record(data.as_slice()) {
            Ok(end_rec) => Ok(
                ZipIterator {
                    data,
                    end_rec,
                    next_entry: 0,
                    cursor: end_rec.central_directory_offset as u64,
                    finished: false,
                },
            ),
            Err(e) => Err(e),
        }
    }

    /// Reads the local header at `at` and decodes the payload behind it.
    fn process_file(&self, at: u64) -> (r: Result<(String, Vec<u8>), MuError>)
        ensures
            match r {
                Ok((name, bytes)) => fetch_result(self.archive(), at as int) matches Ok(v) && v == (
                    name@,
                    bytes@,
                ),
                Err(e) => fetch_result(self.archive(), at as int) matches Err(x) && x == e,
            },
    {
        match jz_read_local_file_header(self.data.as_slice(), at) {
            Ok((header, filename, payload)) => {
                match jz_read_data(self.data.as_slice(), payload, &header) {
                    Ok(bytes) => Ok((filename, bytes)),
                    Err(e) => Err(e),
                }
            },
            Err(e) => Err(e),
        }
    }

    /// The detour of one step: fetches the entry that `header` points to.
    /// The walk's own cursor is not touched.
    fn record_callback(&self, header: &InternalHeader) -> (r: Result<
        (String, Vec<u8>),
        MuError,
    >)
        ensures
            match r {
                Ok((name, bytes)) => fetch_result(self.archive(), header.offset as int) matches Ok(
                    v,
                ) && v == (name@, bytes@),
                Err(e) => fetch_result(self.archive(), header.offset as int) matches Err(x) && x
                    == e,
            },
    {
        self.process_file(header.offset as u64)
    }

    /// Reads the central-directory record at the cursor and fetches its
    /// entry. Returns the entry and the cursor after the record.
    fn read_step(&self) -> (r: Result<(ZipEntry, u64), MuError>)
        ensures
            match r {
                Ok((entry, next)) => step_result(self.archive(), self.cursor as int) matches Ok(v)
                    && v == (entry@, next as int),
                Err(e) => step_result(self.archive(), self.cursor as int) matches Err(x) && x == e,
            },
    {
        let data = self.data.as_slice();
        let cursor: u64 = self.cursor;
        if !can_read(data, cursor, GLOBAL_HEADER_SIZE) {
            return Err(MuError(ErrorKind::IoFailure));
        }
        let _len: usize = data.len();
        let record = parse_global_header(data, cursor as usize);
        if record.signature != GLOBAL_FILE_HEADER_SIGNATURE {
            return Err(MuError(ErrorKind::InvalidGlobalHeaderSignature));
        }
        let name_len: u64 = record.file_name_length as u64;
        if name_len + 1 >= NAME_CAPACITY {
            return Err(MuError(ErrorKind::FilenameTooLong));
        }
        let name_at: u64 = cursor + GLOBAL_HEADER_SIZE;
        if !can_read(data, name_at, name_len) {
            return Err(MuError(ErrorKind::IoFailure));
        }
        let name_bytes = read_exact(data, name_at, name_len);
        if text_from_utf8(name_bytes.as_slice()).is_none() {
            return Err(MuError(ErrorKind::InvalidUtf8Filename));
        }
        let name_end: u64 = name_at + name_len;
        let skip: u64 = record.extra_field_length as u64 + record.file_comment_length as u64;
        if skip > MAX_POSITION - name_end {
            return Err(MuError(ErrorKind::IoFailure));
        }
        let header = InternalHeader {
            compression_method: record.compression_method,
            last_mod_file_time: record.last_mod_file_time,
            last_mod_file_date: record.last_mod_file_date,
            crc32: record.crc32,
            compressed_size: record.compressed_size,
            uncompressed_size: record.uncompressed_size,
            offset: record.relative_offset_of_local_header,
        };
        match self.record_callback(&header) {
            Ok((filename, buffer)) => Ok((ZipEntry { header, buffer, filename }, name_end + skip)),
            Err(e) => Err(e),
        }
    }

    /// Yields the next item of the walk: `None` at the end, an entry, or
    /// the failure that ends the walk. After a failure nothing more comes.
    pub fn next(&mut self) -> (r: Option<Result<ZipEntry, MuError>>)
        ensures
            final(self).archive() == old(self).archive(),
            final(self).end_record() == old(self).end_record(),
            old(self).pending().len() == 0 ==> r is None && final(self).pending().len() == 0,
            old(self).pending().len() > 0 ==> (r matches Some(item) && item_view(item) == old(
                self,
            ).pending()[0]),
            old(self).pending().len() > 0 ==> final(self).pending() == old(
                self,
            ).pending().drop_first(),
            r matches Some(Err(_)) ==> final(self).pending().len() == 0,
    {
        if self.finished {
            return None;
        }
        if self.next_entry > self.end_rec.num_entries {
            self.finished = true;
            return Some(Err(MuError(ErrorKind::InvariantViolation)));
        }
        if self.next_entry == self.end_rec.num_entries {
            return None;
        }
        match self.read_step() {
            Ok((entry, next)) => {
                proof {
                    let rest = entries_from(
                        self.data@,
                        (self.end_rec.num_entries - self.next_entry - 1) as nat,
                        next as int,
                    );
                    assert((seq![Ok::<EntryModel, MuError>(entry@)] + rest).drop_first() =~= rest);
                }
                self.cursor = next;
                self.next_entry = self.next_entry + 1;
                Some(Ok(entry))
            },
            Err(e) => {
                proof {
                    assert(seq![Err::<EntryModel, MuError>(e)].drop_first() =~= Seq::empty());
                }
                self.finished = true;
                Some(Err(e))
            },
        }
    }

    /// Runs the walk to its end and returns every item that was still to
    /// come, in order.
    pub fn collect_entries(&mut self) -> (out: Vec<Result<ZipEntry, MuError>>)
        ensures
            items_view(out@) == old(self).pending(),
            final(self).pending().len() == 0,
            final(self).archive() == old(self).archive(),
            final(self).end_record() == old(self).end_record(),
    {
        let mut out: Vec<Result<ZipEntry, MuError>> = Vec::new();
        loop
            invariant
                items_view(out@) + self.pending() =~= old(self).pending(),
                self.archive() == old(self).archive(),
                self.end_record() == old(self).end_record(),
            ensures
                self.pending().len() == 0,
            decreases self.pending().len(),
        {
            let ghost before = self.pending();
            let ghost seen = out@;
            match self.next() {
                None => {
                    break ;
                },
                Some(item) => {
                    out.push(item);
                    proof {
                        assert(items_view(out@) =~= items_view(seen).push(item_view(item)));
                        assert(before =~= seq![before[0]] + before.drop_first());
                    }
                },
            }
        }
        out
    }
}

/// The models of a run of yielded items.
pub open spec fn items_view(items: Seq<Result<ZipEntry, MuError>>) -> Seq<
    Result<EntryModel, MuError>,
> {
    items.map_values(|item: Result<ZipEntry, MuError>| item_view(item))
}

/// Reads a whole archive: every item of its walk, or why no walk starts.
pub fn read_archive(data: Vec<u8>) -> (r: Result<Vec<Result<ZipEntry, MuError>>, MuError>)
    ensures
        match r {
            Ok(items) => archive_entries(data@) == Ok::<Seq<Result<EntryModel, MuError>>, MuError>(
                items_view(items@),
            ),
            Err(e) => archive_entries(data@) == Err::<Seq<Result<EntryModel, MuError>>, MuError>(e),
        },
{
    match ZipIterator::new(data) {
        Ok(mut walk) => Ok(walk.collect_entries()),
        Err(e) => Err(e),
    }
}

} // verus!
