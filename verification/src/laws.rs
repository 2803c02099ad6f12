//! What holds of every walk: how many items it yields, in which order,
//! and where it stops.
use vstd::prelude::*;
use vstd::utf8::valid_utf8;
use crate::bytes::readable;
use crate::end_record::{locate_end_record, END_RECORD_SIZE};
use crate::local::{
    local_header_at,
    local_header_result,
    LOCAL_FILE_HEADER_SIGNATURE,
    LOCAL_HEADER_SIZE,
    MAX_POSITION,
};
use crate::types::{ErrorKind, MuError};
use crate::walker::{
    archive_entries,
    entries_from,
    fetch_result,
    global_header_at,
    step_result,
    EntryModel,
    GLOBAL_FILE_HEADER_SIGNATURE,
    GLOBAL_HEADER_SIZE,
    NAME_CAPACITY,
};

verus! {

/// Whether the central-directory record at `cursor` passes every test that
/// the walker makes before it turns to the local header.
pub open spec fn central_record_ok(s: Seq<u8>, cursor: int) -> bool {
    let g = global_header_at(s, cursor);
    let name_at = cursor + GLOBAL_HEADER_SIZE;
    let name_end = name_at + g.file_name_length;
    &&& readable(s, cursor, GLOBAL_HEADER_SIZE as int)
    &&& g.signature == GLOBAL_FILE_HEADER_SIGNATURE
    &&& g.file_name_length + 1 < NAME_CAPACITY
    &&& readable(s, name_at, g.file_name_length as int)
    &&& valid_utf8(s.subrange(name_at, name_end))
    &&& name_end + g.extra_field_length + g.file_comment_length <= MAX_POSITION
}

/// The item that a step yields.
pub open spec fn step_item(step: Result<(EntryModel, int), MuError>) -> Result<
    EntryModel,
    MuError,
> {
    match step {
        Ok(v) => Ok(v.0),
        Err(e) => Err(e),
    }
}

/// The cursor after `k` steps from `cursor`, where each of them succeeds.
pub open spec fn cursor_after(s: Seq<u8>, cursor: int, k: nat) -> Option<int>
    decreases k,
{
    if k == 0 {
        Some(cursor)
    } else {
        match step_result(s, cursor) {
            Ok(v) => cursor_after(s, v.1, (k - 1) as nat),
            Err(_) => None,
        }
    }
}

/// Where the first `k` steps of a walk over `n > k` entries succeed, the
/// walk yields an entry for each of them, then the item of step `k` read at
/// the cursor that they left; and if that step fails, its error is the last
/// item.
pub proof fn lemma_item_at(s: Seq<u8>, n: nat, cursor: int, k: nat)
    requires
        k < n,
        cursor_after(s, cursor, k) is Some,
    ensures
        entries_from(s, n, cursor).len() > k,
        forall|j: int| 0 <= j < k ==> (#[trigger] entries_from(s, n, cursor)[j]) is Ok,
        entries_from(s, n, cursor)[k as int] == step_item(
            step_result(s, cursor_after(s, cursor, k).unwrap()),
        ),
        step_result(s, cursor_after(s, cursor, k).unwrap()) is Err ==> entries_from(
            s,
            n,
            cursor,
        ).len() == k + 1,
    decreases k,
{
    if k > 0 {
        let v = step_result(s, cursor).unwrap();
        let rest = entries_from(s, (n - 1) as nat, v.1);
        lemma_item_at(s, (n - 1) as nat, v.1, (k - 1) as nat);
        assert(entries_from(s, n, cursor) =~= seq![Ok::<EntryModel, MuError>(v.0)] + rest);
        assert forall|j: int| 0 <= j < k implies (#[trigger] entries_from(s, n, cursor)[j]) is Ok by {
            if j > 0 {
                assert(entries_from(s, n, cursor)[j] == rest[j - 1]);
            }
        }
        assert(entries_from(s, n, cursor)[k as int] == rest[k - 1]);
    }
}

/// A walk in which each of the `n` steps succeeds yields exactly `n`
/// items, all of them entries, the `i`-th being the entry of the `i`-th
/// central-directory record.
pub proof fn lemma_walk_yields_every_entry(s: Seq<u8>, n: nat, cursor: int)
    requires
        cursor_after(s, cursor, n) is Some,
    ensures
        entries_from(s, n, cursor).len() == n,
        forall|i: int|
            0 <= i < n ==> {
                &&& cursor_after(s, cursor, i as nat) is Some
                &&& (#[trigger] entries_from(s, n, cursor)[i]) is Ok
                &&& entries_from(s, n, cursor)[i] == step_item(
                    step_result(s, cursor_after(s, cursor, i as nat).unwrap()),
                )
            },
    decreases n,
{
    if n > 0 {
        let v = step_result(s, cursor).unwrap();
        let rest = entries_from(s, (n - 1) as nat, v.1);
        lemma_walk_yields_every_entry(s, (n - 1) as nat, v.1);
        assert(entries_from(s, n, cursor) =~= seq![Ok::<EntryModel, MuError>(v.0)] + rest);
        assert forall|i: int| 0 <= i < n implies {
            &&& cursor_after(s, cursor, i as nat) is Some
            &&& (#[trigger] entries_from(s, n, cursor)[i]) is Ok
            &&& entries_from(s, n, cursor)[i] == step_item(
                step_result(s, cursor_after(s, cursor, i as nat).unwrap()),
            )
        } by {
            if i > 0 {
                assert(entries_from(s, n, cursor)[i] == rest[i - 1]);
                assert(cursor_after(s, cursor, i as nat) == cursor_after(
                    s,
                    v.1,
                    (i - 1) as nat,
                ));
            }
        }
    }
}

/// An archive whose end record is valid and whose central-directory steps
/// all succeed yields exactly as many items as the end record counts, each
/// of them an entry, in central-directory order.
pub proof fn lemma_well_formed_archive(s: Seq<u8>)
    requires
        locate_end_record(s) matches Ok(er) && cursor_after(
            s,
            er.central_directory_offset as int,
            er.num_entries as nat,
        ) is Some,
    ensures
        archive_entries(s) matches Ok(items) && ({
            let er = locate_end_record(s).unwrap();
            &&& items.len() == er.num_entries
            &&& forall|i: int|
                0 <= i < items.len() ==> {
                    &&& cursor_after(s, er.central_directory_offset as int, i as nat) is Some
                    &&& (#[trigger] items[i]) == step_item(
                        step_result(
                            s,
                            cursor_after(s, er.central_directory_offset as int, i as nat).unwrap(),
                        ),
                    )
                    &&& items[i] is Ok
                }
        }),
{
    let er = locate_end_record(s).unwrap();
    lemma_walk_yields_every_entry(s, er.num_entries as nat, er.central_directory_offset as int);
}

/// A stored entry's bytes are the `uncompressed_size` bytes that stand
/// behind its local header, filename and extra field.
pub proof fn lemma_stored_entry_bytes(s: Seq<u8>, at: int)
    requires
        local_header_result(s, at) matches Ok(v) && v.0.compression_method == 0,
    ensures
        fetch_result(s, at) matches Ok(found) ==> ({
            let v = local_header_result(s, at).unwrap();
            &&& found.0 == v.1
            &&& found.1 == s.subrange(v.2, v.2 + v.0.uncompressed_size)
            &&& found.1.len() == v.0.uncompressed_size
        }),
{
}

/// A local header without its signature ends the walk where it is met:
/// after `k` good steps, a good central-directory record that points to
/// such a header gives `k` entries, then `InvalidLocalHeaderSignature`, and
/// nothing more.
pub proof fn lemma_bad_local_signature_ends_walk(s: Seq<u8>, n: nat, cursor: int, k: nat)
    requires
        k < n,
        cursor_after(s, cursor, k) matches Some(c) && central_record_ok(s, c) && ({
            let at = global_header_at(s, c).relative_offset_of_local_header as int;
            readable(s, at, LOCAL_HEADER_SIZE as int) && local_header_at(
                s,
                at,
            ).signature != LOCAL_FILE_HEADER_SIGNATURE
        }),
    ensures
        entries_from(s, n, cursor).len() == k + 1,
        forall|j: int| 0 <= j < k ==> (#[trigger] entries_from(s, n, cursor)[j]) is Ok,
        entries_from(s, n, cursor)[k as int] == Err::<EntryModel, MuError>(
            MuError(ErrorKind::InvalidLocalHeaderSignature),
        ),
{
    lemma_item_at(s, n, cursor, k);
}

/// An entry whose local header declares a method other than Store and
/// DEFLATE yields `UnsupportedCompressionMethod` with that method, at the
/// entry's own place in the walk, and ends it.
pub proof fn lemma_unsupported_method_at(s: Seq<u8>, n: nat, cursor: int, k: nat)
    requires
        k < n,
        cursor_after(s, cursor, k) matches Some(c) && central_record_ok(s, c) && (
        local_header_result(
            s,
            global_header_at(s, c).relative_offset_of_local_header as int,
        ) matches Ok(v) && v.0.compression_method != 0 && v.0.compression_method != 8),
    ensures
        entries_from(s, n, cursor).len() == k + 1,
        forall|j: int| 0 <= j < k ==> (#[trigger] entries_from(s, n, cursor)[j]) is Ok,
        entries_from(s, n, cursor)[k as int] == Err::<EntryModel, MuError>(
            MuError(
                ErrorKind::UnsupportedCompressionMethod(
                    local_header_result(
                        s,
                        global_header_at(
                            s,
                            cursor_after(s, cursor, k).unwrap(),
                        ).relative_offset_of_local_header as int,
                    ).unwrap().0.compression_method,
                ),
            ),
        ),
{
    lemma_item_at(s, n, cursor, k);
}

/// Without a valid end record there is no walk: a stream no longer than
/// an end record gives `FileTooSmall`, and a located record off the
/// single-disk layout gives `MultiDiskUnsupported`, in place of any item.
pub proof fn lemma_no_walk_without_end_record(s: Seq<u8>)
    ensures
        locate_end_record(s) matches Err(e) ==> archive_entries(s) == Err::<
            Seq<Result<EntryModel, MuError>>,
            MuError,
        >(e),
        s.len() <= END_RECORD_SIZE ==> archive_entries(s) == Err::<
            Seq<Result<EntryModel, MuError>>,
            MuError,
        >(MuError(ErrorKind::FileTooSmall)),
        archive_entries(s) matches Ok(items) ==> items.len() <= locate_end_record(
            s,
        ).unwrap().num_entries,
{
    if locate_end_record(s) is Ok {
        let er = locate_end_record(s).unwrap();
        lemma_walk_is_bounded(s, er.num_entries as nat, er.central_directory_offset as int);
    }
}

/// A walk never yields more items than entries remain.
pub proof fn lemma_walk_is_bounded(s: Seq<u8>, n: nat, cursor: int)
    ensures
        entries_from(s, n, cursor).len() <= n,
    decreases n,
{
    if n > 0 {
        match step_result(s, cursor) {
            Ok(v) => {
                lemma_walk_is_bounded(s, (n - 1) as nat, v.1);
            },
            Err(_) => {},
        }
    }
}

} // verus!
