use munzip::end_record::{jz_read_end_record, parse_end_record};
use munzip::bytes::{can_read, read_exact, read_u16, read_u32};
use munzip::decode::{finish_inflate, jz_read_data};
use munzip::local::{jz_read_local_file_header, jz_read_local_file_header_raw};
use munzip::walker::read_archive;
use munzip::{ErrorKind, InternalHeader, MuError, ZipEntry, ZipIterator};

/// One file of a test archive: name, method, payload as stored, declared
/// uncompressed size.
struct Member {
    name: Vec<u8>,
    method: u16,
    payload: Vec<u8>,
    uncompressed_size: u32,
    extra: Vec<u8>,
}

fn stored(name: &str, content: &[u8]) -> Member {
    Member {
        name: name.as_bytes().to_vec(),
        method: 0,
        payload: content.to_vec(),
        uncompressed_size: content.len() as u32,
        extra: Vec::new(),
    }
}

fn deflated(name: &str, compressed: &[u8], uncompressed_size: u32) -> Member {
    Member {
        name: name.as_bytes().to_vec(),
        method: 8,
        payload: compressed.to_vec(),
        uncompressed_size,
        extra: Vec::new(),
    }
}

fn put16(out: &mut Vec<u8>, v: u16) {
    out.extend_from_slice(&v.to_le_bytes());
}

fn put32(out: &mut Vec<u8>, v: u32) {
    out.extend_from_slice(&v.to_le_bytes());
}

fn local_record(m: &Member) -> Vec<u8> {
    let mut out = Vec::new();
    put32(&mut out, 0x04034B50);
    put16(&mut out, 20);
    put16(&mut out, 0);
    put16(&mut out, m.method);
    put16(&mut out, 0x6000);
    put16(&mut out, 0x5821);
    put32(&mut out, 0xDEADBEEF);
    put32(&mut out, m.payload.len() as u32);
    put32(&mut out, m.uncompressed_size);
    put16(&mut out, m.name.len() as u16);
    put16(&mut out, m.extra.len() as u16);
    out.extend_from_slice(&m.name);
    out.extend_from_slice(&m.extra);
    out.extend_from_slice(&m.payload);
    out
}

fn central_record(m: &Member, offset: u32, comment: &[u8]) -> Vec<u8> {
    let mut out = Vec::new();
    put32(&mut out, 0x02014B50);
    put16(&mut out, 20);
    put16(&mut out, 20);
    put16(&mut out, 0);
    put16(&mut out, m.method);
    put16(&mut out, 0x6000);
    put16(&mut out, 0x5821);
    put32(&mut out, 0xDEADBEEF);
    put32(&mut out, m.payload.len() as u32);
    put32(&mut out, m.uncompressed_size);
    put16(&mut out, m.name.len() as u16);
    put16(&mut out, m.extra.len() as u16);
    put16(&mut out, comment.len() as u16);
    put16(&mut out, 0);
    put16(&mut out, 0);
    put32(&mut out, 0);
    put32(&mut out, offset);
    out.extend_from_slice(&m.name);
    out.extend_from_slice(&m.extra);
    out.extend_from_slice(comment);
    out
}

fn end_record(disk: u16, cd_disk: u16, here: u16, total: u16, size: u32, offset: u32, comment: &[u8]) -> Vec<u8> {
    let mut out = Vec::new();
    put32(&mut out, 0x06054B50);
    put16(&mut out, disk);
    put16(&mut out, cd_disk);
    put16(&mut out, here);
    put16(&mut out, total);
    put32(&mut out, size);
    put32(&mut out, offset);
    put16(&mut out, comment.len() as u16);
    out.extend_from_slice(comment);
    out
}

/// The archive and the offset of each member's local header.
fn archive_with(members: &[Member], comment: &[u8]) -> (Vec<u8>, Vec<usize>) {
    let mut out = Vec::new();
    let mut offsets = Vec::new();
    for m in members {
        offsets.push(out.len());
        out.extend_from_slice(&local_record(m));
    }
    let cd_offset = out.len();
    for (m, at) in members.iter().zip(offsets.iter()) {
        out.extend_from_slice(&central_record(m, *at as u32, b""));
    }
    let cd_size = out.len() - cd_offset;
    let n = members.len() as u16;
    out.extend_from_slice(&end_record(0, 0, n, n, cd_size as u32, cd_offset as u32, comment));
    (out, offsets)
}

fn archive(members: &[Member]) -> Vec<u8> {
    archive_with(members, b"").0
}

const WORLD_DEFLATED: [u8; 10] = [43, 207, 47, 202, 73, 81, 40, 71, 144, 0];
const A40_DEFLATED: [u8; 6] = [75, 76, 36, 14, 0, 0];

fn names_and_bytes(items: &[Result<ZipEntry, MuError>]) -> Vec<(String, Vec<u8>)> {
    items
        .iter()
        .map(|item| {
            let e = item.as_ref().unwrap();
            (e.filename().clone(), e.buffer().clone())
        })
        .collect()
}

fn kind_of(item: &Result<ZipEntry, MuError>) -> ErrorKind {
    match item {
        Ok(_) => panic!("an entry where an error was expected"),
        Err(e) => e.kind(),
    }
}

fn three_members() -> Vec<Member> {
    vec![stored("one", b"1"), stored("two", b"22"), deflated("three", &A40_DEFLATED, 40)]
}

#[test]
fn two_entry_archive_yields_both_in_order() {
    let data = archive(&[stored("a.txt", b"hello"), deflated("b.bin", &WORLD_DEFLATED, 17)]);
    let mut walk = ZipIterator::new(data).unwrap();
    let first = walk.next().unwrap().unwrap();
    assert_eq!(first.filename(), "a.txt");
    assert_eq!(first.buffer().as_slice(), b"hello");
    let second = walk.next().unwrap().unwrap();
    assert_eq!(second.filename(), "b.bin");
    assert_eq!(second.buffer().as_slice(), b"world world world");
    assert!(walk.next().is_none());
    assert!(walk.next().is_none());
}

#[test]
fn comment_with_signature_resolves_to_true_end_record() {
    let comment = b"a note that ends in PK\x05\x06 and a few more";
    let (data, _) = archive_with(&[stored("a.txt", b"hello")], comment);
    let er = jz_read_end_record(&data).unwrap();
    assert_eq!(er.num_entries, 1);
    assert_eq!(er.zip_comment_length as usize, comment.len());
    assert_eq!(er.central_directory_offset, 30 + 5 + 5);
    let items = read_archive(data).unwrap();
    assert_eq!(names_and_bytes(&items), vec![("a.txt".to_string(), b"hello".to_vec())]);
}

#[test]
fn signature_with_room_for_a_record_behind_it_is_taken() {
    // The scan accepts the match nearest the end that leaves room for a
    // whole record, also where it stands in the comment.
    let comment = b"note PK\x05\x06\x01\x00 and more text that is longer than a record";
    let (data, _) = archive_with(&[stored("a.txt", b"hello")], comment);
    assert_eq!(jz_read_end_record(&data), Err(MuError(ErrorKind::MultiDiskUnsupported)));
}

#[test]
fn signature_near_the_end_wins_over_an_earlier_record() {
    // Two complete end records: the later one is the archive's.
    let mut data = end_record(0, 0, 7, 7, 1, 2, b"");
    data.extend_from_slice(&end_record(0, 0, 0, 0, 0, 0, b""));
    let er = jz_read_end_record(&data).unwrap();
    assert_eq!(er.num_entries, 0);
}

#[test]
fn archive_of_n_entries_yields_n_items() {
    for n in [1usize, 2, 5, 40] {
        let members: Vec<Member> =
            (0..n).map(|i| stored(&format!("f{i}"), format!("content {i}").as_bytes())).collect();
        let items = read_archive(archive(&members)).unwrap();
        assert_eq!(items.len(), n);
        for (i, item) in items.iter().enumerate() {
            let e = item.as_ref().unwrap();
            assert_eq!(e.filename(), &format!("f{i}"));
            assert_eq!(e.buffer(), &format!("content {i}").into_bytes());
        }
    }
}

#[test]
fn entries_come_in_central_directory_order() {
    // Local headers in one order, central directory in the other.
    let a = stored("first-on-disk", b"AAAA");
    let b = stored("second-on-disk", b"BB");
    let mut data = Vec::new();
    let at_a = data.len() as u32;
    data.extend_from_slice(&local_record(&a));
    let at_b = data.len() as u32;
    data.extend_from_slice(&local_record(&b));
    let cd = data.len() as u32;
    data.extend_from_slice(&central_record(&b, at_b, b"a record comment"));
    data.extend_from_slice(&central_record(&a, at_a, b""));
    let size = data.len() as u32 - cd;
    data.extend_from_slice(&end_record(0, 0, 2, 2, size, cd, b""));
    let items = read_archive(data).unwrap();
    assert_eq!(
        names_and_bytes(&items),
        vec![
            ("second-on-disk".to_string(), b"BB".to_vec()),
            ("first-on-disk".to_string(), b"AAAA".to_vec())
        ]
    );
}

#[test]
fn stored_entry_is_the_payload_bytes() {
    let content: Vec<u8> = (0..=255u8).collect();
    let (data, offsets) = archive_with(&[stored("bytes", &content)], b"");
    let payload_at = offsets[0] + 30 + 5;
    let items = read_archive(data.clone()).unwrap();
    let e = items[0].as_ref().unwrap();
    assert_eq!(e.buffer().as_slice(), &data[payload_at..payload_at + 256]);
    assert_eq!(e.header().uncompressed_size, 256);
}

#[test]
fn deflate_entry_has_declared_length() {
    let items = read_archive(archive(&[deflated("a", &A40_DEFLATED, 40)])).unwrap();
    let e = items[0].as_ref().unwrap();
    assert_eq!(e.buffer().len(), e.header().uncompressed_size as usize);
    assert_eq!(e.buffer().as_slice(), [b'a'; 40].as_slice());
}

#[test]
fn deflate_entry_is_returned_as_the_decoder_gave_it() {
    // The declared size is not held against the decoder's output.
    let items = read_archive(archive(&[deflated("b.bin", &WORLD_DEFLATED, 5)])).unwrap();
    let e = items[0].as_ref().unwrap();
    assert_eq!(e.header().uncompressed_size, 5);
    assert_eq!(e.buffer().as_slice(), b"world world world");
}

#[test]
fn extra_field_is_skipped() {
    let mut m = stored("x", b"payload");
    m.extra = vec![9, 9, 9, 9, 9, 9];
    let items = read_archive(archive(&[m, stored("y", b"z")])).unwrap();
    assert_eq!(
        names_and_bytes(&items),
        vec![("x".to_string(), b"payload".to_vec()), ("y".to_string(), b"z".to_vec())]
    );
}

#[test]
fn multi_disk_end_record_is_refused() {
    for (disk, cd_disk, here, total) in [(1u16, 0u16, 1u16, 1u16), (0, 1, 1, 1), (0, 0, 1, 2), (0, 0, 2, 1)] {
        let mut data = local_record(&stored("a", b"b"));
        let cd = data.len() as u32;
        data.extend_from_slice(&central_record(&stored("a", b"b"), 0, b""));
        let size = data.len() as u32 - cd;
        data.extend_from_slice(&end_record(disk, cd_disk, here, total, size, cd, b""));
        assert_eq!(jz_read_end_record(&data), Err(MuError(ErrorKind::MultiDiskUnsupported)));
        assert_eq!(ZipIterator::new(data.clone()).err(), Some(MuError(ErrorKind::MultiDiskUnsupported)));
        assert_eq!(read_archive(data).err(), Some(MuError(ErrorKind::MultiDiskUnsupported)));
    }
}

#[test]
fn short_stream_is_too_small() {
    for len in [0usize, 1, 21, 22] {
        let mut data = end_record(0, 0, 0, 0, 0, 0, b"");
        data.truncate(len);
        assert_eq!(jz_read_end_record(&data), Err(MuError(ErrorKind::FileTooSmall)));
        assert_eq!(read_archive(data).err(), Some(MuError(ErrorKind::FileTooSmall)));
    }
}

#[test]
fn empty_archive_of_23_bytes_is_read() {
    let mut data = vec![0u8];
    data.extend_from_slice(&end_record(0, 0, 0, 0, 0, 0, b""));
    assert_eq!(read_archive(data).unwrap().len(), 0);
}

#[test]
fn stream_without_signature_is_refused() {
    let data = vec![0x50u8; 100];
    assert_eq!(jz_read_end_record(&data), Err(MuError(ErrorKind::SignatureNotFound)));
}

#[test]
fn end_record_at_the_window_edge() {
    // The record starts exactly at the first offset of the window.
    let mut data = vec![0u8; 10];
    data.extend_from_slice(&end_record(0, 0, 0, 0, 0, 0, b""));
    data.extend_from_slice(&vec![0u8; 65536 - 22]);
    assert_eq!(jz_read_end_record(&data).map(|er| er.signature), Ok(0x06054B50));
    // One byte more behind it, and it is out of the window.
    data.push(0);
    assert_eq!(jz_read_end_record(&data), Err(MuError(ErrorKind::SignatureNotFound)));
}

#[test]
fn flipped_local_signature_stops_the_walk_there() {
    for k in 1usize..=3 {
        let (mut data, offsets) = archive_with(&three_members(), b"");
        data[offsets[k - 1]] ^= 0xFF;
        let items = read_archive(data.clone()).unwrap();
        assert_eq!(items.len(), k);
        for item in &items[..k - 1] {
            assert!(item.is_ok());
        }
        assert_eq!(kind_of(&items[k - 1]), ErrorKind::InvalidLocalHeaderSignature);
        let mut walk = ZipIterator::new(data).unwrap();
        for _ in 0..k - 1 {
            assert!(walk.next().unwrap().is_ok());
        }
        assert!(walk.next().unwrap().is_err());
        assert!(walk.next().is_none());
        assert!(walk.next().is_none());
    }
}

#[test]
fn unsupported_method_is_reported_with_its_id() {
    let mut odd = stored("odd", b"????");
    odd.method = 99;
    let items = read_archive(archive(&[stored("ok", b"fine"), odd, stored("late", b"x")])).unwrap();
    assert_eq!(items.len(), 2);
    assert_eq!(items[0].as_ref().unwrap().filename(), "ok");
    assert_eq!(kind_of(&items[1]), ErrorKind::UnsupportedCompressionMethod(99));
}

#[test]
fn bad_central_signature_is_refused() {
    let (mut data, _) = archive_with(&[stored("a", b"b")], b"");
    let er = jz_read_end_record(&data).unwrap();
    data[er.central_directory_offset as usize + 3] = 0;
    let items = read_archive(data).unwrap();
    assert_eq!(items.len(), 1);
    assert_eq!(kind_of(&items[0]), ErrorKind::InvalidGlobalHeaderSignature);
}

#[test]
fn central_filename_of_65535_bytes_is_too_long() {
    let (mut data, _) = archive_with(&[stored("a", b"b")], b"");
    let cd = jz_read_end_record(&data).unwrap().central_directory_offset as usize;
    data[cd + 28] = 0xFF;
    data[cd + 29] = 0xFF;
    let items = read_archive(data).unwrap();
    assert_eq!(kind_of(&items[0]), ErrorKind::FilenameTooLong);
}

#[test]
fn filename_that_is_not_utf8_is_refused() {
    // In the local header only.
    let (mut data, offsets) = archive_with(&[stored("ab", b"c")], b"");
    data[offsets[0] + 30] = 0xFF;
    assert_eq!(kind_of(&read_archive(data).unwrap()[0]), ErrorKind::InvalidUtf8Filename);
    // In the central directory only.
    let (mut data, _) = archive_with(&[stored("ab", b"c")], b"");
    let cd = jz_read_end_record(&data).unwrap().central_directory_offset as usize;
    data[cd + 46] = 0xC0;
    assert_eq!(kind_of(&read_archive(data).unwrap()[0]), ErrorKind::InvalidUtf8Filename);
}

#[test]
fn multibyte_filename_is_decoded() {
    let items = read_archive(archive(&[stored("héllo-日本.txt", b"x")])).unwrap();
    assert_eq!(items[0].as_ref().unwrap().filename(), "héllo-日本.txt");
}

#[test]
fn stored_entry_with_unequal_sizes_is_corrupt() {
    let mut m = stored("a", b"hello");
    m.uncompressed_size = 4;
    let items = read_archive(archive(&[m])).unwrap();
    assert_eq!(kind_of(&items[0]), ErrorKind::CorruptStoredEntry);
}

#[test]
fn broken_deflate_stream_fails_to_decompress() {
    // A block of the reserved type.
    let items = read_archive(archive(&[deflated("a", &[0x07, 0x00, 0x00], 5)])).unwrap();
    assert_eq!(kind_of(&items[0]), ErrorKind::DecompressionFailed);
    assert_eq!(
        finish_inflate(Err("a message".to_string())),
        Err(MuError(ErrorKind::DecompressionFailed))
    );
    assert_eq!(finish_inflate(Ok(vec![1, 2, 3])), Ok(vec![1, 2, 3]));
}

#[test]
fn reads_outside_the_stream_are_io_failures() {
    // The central directory offset points behind the end.
    let mut data = end_record(0, 0, 1, 1, 46, 1000, b"");
    data.insert(0, 0);
    let items = read_archive(data).unwrap();
    assert_eq!(kind_of(&items[0]), ErrorKind::IoFailure);
    // The payload is longer than what is left.
    let data = local_record(&stored("a", b"hello"));
    let header = InternalHeader {
        compression_method: 0,
        last_mod_file_time: 0,
        last_mod_file_date: 0,
        crc32: 0,
        compressed_size: 6,
        uncompressed_size: 6,
        offset: 0,
    };
    assert_eq!(jz_read_data(&data, 31, &header), Err(MuError(ErrorKind::IoFailure)));
    assert_eq!(jz_read_data(&data, 31, &InternalHeader { uncompressed_size: 5, ..header }), Ok(b"hello".to_vec()));
    assert_eq!(jz_read_local_file_header(&data[..29], 0).err(), Some(MuError(ErrorKind::IoFailure)));
    assert_eq!(jz_read_local_file_header(&data, u64::MAX).err(), Some(MuError(ErrorKind::IoFailure)));
}

#[test]
fn local_header_reader_returns_fields_name_and_payload_position() {
    let mut m = deflated("b.bin", &WORLD_DEFLATED, 17);
    m.extra = vec![1, 2, 3];
    let mut data = vec![0u8; 7];
    data.extend_from_slice(&local_record(&m));
    let (raw, name, payload) = jz_read_local_file_header_raw(&data, 7).unwrap();
    assert_eq!(name, "b.bin");
    assert_eq!(payload, 7 + 30 + 5 + 3);
    assert_eq!(raw.signature, 0x04034B50);
    assert_eq!(raw.version_needed_to_extract, 20);
    assert_eq!(raw.compression_method, 8);
    assert_eq!(raw.last_mod_file_time, 0x6000);
    assert_eq!(raw.last_mod_file_date, 0x5821);
    assert_eq!(raw.crc32, 0xDEADBEEF);
    assert_eq!(raw.compressed_size, 10);
    assert_eq!(raw.uncompressed_size, 17);
    assert_eq!(raw.file_name_length, 5);
    assert_eq!(raw.extra_field_length, 3);
    let (header, name, payload) = jz_read_local_file_header(&data, 7).unwrap();
    assert_eq!(name, "b.bin");
    assert_eq!(header.offset, 0);
    assert_eq!(header.compressed_size, 10);
    assert_eq!(jz_read_data(&data, payload, &header), Ok(b"world world world".to_vec()));
}

#[test]
fn entry_header_is_the_central_directory_descriptor() {
    let (data, offsets) = archive_with(&three_members(), b"");
    let items = read_archive(data).unwrap();
    let third = items[2].as_ref().unwrap().header();
    assert_eq!(
        third,
        InternalHeader {
            compression_method: 8,
            last_mod_file_time: 0x6000,
            last_mod_file_date: 0x5821,
            crc32: 0xDEADBEEF,
            compressed_size: 6,
            uncompressed_size: 40,
            offset: offsets[2] as u32,
        }
    );
}

#[test]
fn end_record_fields_are_little_endian() {
    let data: Vec<u8> = vec![
        0x50, 0x4B, 0x05, 0x06, 0x01, 0x02, 0x03, 0x04, 0x05, 0x06, 0x07, 0x08, 0x09, 0x0A, 0x0B, 0x0C, 0x0D,
        0x0E, 0x0F, 0x10, 0x11, 0x12,
    ];
    let er = parse_end_record(&data, 0);
    assert_eq!(er.signature, 0x06054B50);
    assert_eq!(er.disk_number, 0x0201);
    assert_eq!(er.central_directory_disk_number, 0x0403);
    assert_eq!(er.num_entries_this_disk, 0x0605);
    assert_eq!(er.num_entries, 0x0807);
    assert_eq!(er.central_directory_size, 0x0C0B0A09);
    assert_eq!(er.central_directory_offset, 0x100F0E0D);
    assert_eq!(er.zip_comment_length, 0x1211);
    assert_eq!(read_u16(&data, 20), 0x1211);
    assert_eq!(read_u32(&[0xFF, 0xFF, 0xFF, 0xFF], 0), u32::MAX);
    assert_eq!(read_u16(&[0xFF, 0xFF], 0), u16::MAX);
}

#[test]
fn bounded_reads() {
    let data = [1u8, 2, 3, 4];
    assert!(can_read(&data, 0, 4));
    assert!(can_read(&data, 4, 0));
    assert!(!can_read(&data, 1, 4));
    assert!(!can_read(&data, 5, 0));
    assert!(!can_read(&data, u64::MAX, u64::MAX));
    assert_eq!(read_exact(&data, 1, 2), vec![2, 3]);
    assert_eq!(read_exact(&data, 4, 0), Vec::<u8>::new());
}

#[test]
fn collecting_after_a_step_gives_the_rest() {
    let mut walk = ZipIterator::new(archive(&three_members())).unwrap();
    assert_eq!(walk.next().unwrap().unwrap().filename(), "one");
    let rest = walk.collect_entries();
    assert_eq!(
        names_and_bytes(&rest),
        vec![("two".to_string(), b"22".to_vec()), ("three".to_string(), vec![b'a'; 40])]
    );
    assert!(walk.collect_entries().is_empty());
    assert!(walk.next().is_none());
}
