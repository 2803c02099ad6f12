//! Decoding an entry's payload by its compression method.
use vstd::prelude::*;
use crate::bytes::{can_read, read_exact, readable};
use crate::types::{ErrorKind, InternalHeader, MuError};

verus! {

/// Compression method id of Store.
pub const METHOD_STORE: u16 = 0;

/// Compression method id of DEFLATE.
pub const METHOD_DEFLATE: u16 = 8;

/// What the DEFLATE decoder answers on a raw DEFLATE stream: the
/// decompressed bytes, or its message.
pub uninterp spec fn inflated(input: Seq<u8>) -> Result<Seq<u8>, Seq<char>>;

/// Calls `inflate::inflate_bytes`, which decompresses a raw DEFLATE stream
/// (no zlib header or trailer) into a fresh vector or gives a message. The
/// contract only names the answer as a function of the input bytes.
#[verifier::external_body]
pub(crate) fn inflate_bytes(input: &[u8]) -> (r: Result<Vec<u8>, String>)
    ensures
        match r {
            Ok(v) => inflated(input@) matches Ok(out) && out == v@,
            Err(e) => inflated(input@) matches Err(msg) && msg == e@,
        },
{
    inflate::inflate_bytes(input)
}

/// What the payload decoder makes of the decoder's answer.
pub open spec fn inflate_outcome(res: Result<Seq<u8>, Seq<char>>) -> Result<Seq<u8>, MuError> {
    match res {
        Ok(out) => Ok(out),
        Err(_) => Err(MuError(ErrorKind::DecompressionFailed)),
    }
}

/// Turns the DEFLATE decoder's answer into the library's: the bytes as
/// they are, or `DecompressionFailed` whatever the message.
pub fn finish_inflate(res: Result<Vec<u8>, String>) -> (r: Result<Vec<u8>, MuError>)
    ensures
        match res {
            Ok(v) => r matches Ok(out) && out == v,
            Err(_) => r matches Err(e) && e == MuError(ErrorKind::DecompressionFailed),
        },
{
    match res {
        Ok(v) => Ok(v),
        Err(_) => Err(MuError(ErrorKind::DecompressionFailed)),
    }
}

/// The decompressed bytes of the payload at `at` under the header `h`.
/// Store takes `uncompressed_size` bytes as they are; DEFLATE hands
/// `compressed_size` bytes to the decoder; any other method is refused
/// with its id.
pub open spec fn payload_result(s: Seq<u8>, at: int, h: InternalHeader) -> Result<
    Seq<u8>,
    MuError,
> {
    if h.compression_method == METHOD_STORE {
        if readable(s, at, h.uncompressed_size as int) {
            Ok(s.subrange(at, at + h.uncompressed_size))
        } else {
            Err(MuError(ErrorKind::IoFailure))
        }
    } else if h.compression_method == METHOD_DEFLATE {
        if readable(s, at, h.compressed_size as int) {
            inflate_outcome(inflated(s.subrange(at, at + h.compressed_size)))
        } else {
            Err(MuError(ErrorKind::IoFailure))
        }
    } else {
        Err(MuError(ErrorKind::UnsupportedCompressionMethod(h.compression_method)))
    }
}

/// Decodes the payload at `at` according to the method and sizes that
/// `header` declares. The declared CRC-32 is carried along and not checked
/// against the decoded bytes, and the length of a DEFLATE result is not
/// held against the declared size.
pub fn jz_read_data(data: &[u8], at: u64, header: &InternalHeader) -> (r: Result<Vec<u8>, MuError>)
    ensures
        match r {
            Ok(v) => payload_result(data@, at as int, *header) matches Ok(out) && out == v@,
            Err(e) => payload_result(data@, at as int, *header) matches Err(x) && x == e,
        },
        header.compression_method == METHOD_STORE ==> (r matches Ok(v) ==> v@ == data@.subrange(
            at as int,
            at + header.uncompressed_size,
        )),
        header.compression_method != METHOD_STORE && header.compression_method != METHOD_DEFLATE
            ==> (r matches Err(e) && e == MuError(
            ErrorKind::UnsupportedCompressionMethod(header.compression_method),
        )),
{
    if header.compression_method == METHOD_STORE {
        let size: u64 = header.uncompressed_size as u64;
        if !can_read(data, at, size) {
            return Err(MuError(ErrorKind::IoFailure));
        }
        Ok(read_exact(data, at, size))
    } else if header.compression_method == METHOD_DEFLATE {
        let size: u64 = header.compressed_size as u64;
        if !can_read(data, at, size) {
            return Err(MuError(ErrorKind::IoFailure));
        }
        let compressed = read_exact(data, at, size);
        finish_inflate(inflate_bytes(compressed.as_slice()))
    } else {
        Err(MuError(ErrorKind::UnsupportedCompressionMethod(header.compression_method)))
    }
}

/// A DEFLATE entry whose payload can be read decodes to exactly what the
/// decoder makes of its `compressed_size` payload bytes. So where the
/// decoder's output has the declared `uncompressed_size`, the decoded entry
/// has that length too.
pub proof fn lemma_deflate_length(s: Seq<u8>, at: int, h: InternalHeader)
    requires
        h.compression_method == METHOD_DEFLATE,
        readable(s, at, h.compressed_size as int),
    ensures
        payload_result(s, at, h) == inflate_outcome(
            inflated(s.subrange(at, at + h.compressed_size)),
        ),
        (inflated(s.subrange(at, at + h.compressed_size)) matches Ok(out) && out.len()
            == h.uncompressed_size) ==> (payload_result(s, at, h) matches Ok(v) && v.len()
            == h.uncompressed_size),
{
}

/// A stored entry decodes to the `uncompressed_size` bytes that stand at
/// its payload position, unchanged.
pub proof fn lemma_store_round_trip(s: Seq<u8>, at: int, h: InternalHeader)
    requires
        h.compression_method == METHOD_STORE,
    ensures
        payload_result(s, at, h) matches Ok(v) ==> v == s.subrange(at, at + h.uncompressed_size)
            && v.len() == h.uncompressed_size,
        payload_result(s, at, h) is Ok <==> readable(s, at, h.uncompressed_size as int),
{
}

/// A method other than Store and DEFLATE is refused with its own id.
pub proof fn lemma_unsupported_method(s: Seq<u8>, at: int, h: InternalHeader)
    requires
        h.compression_method != METHOD_STORE,
        h.compression_method != METHOD_DEFLATE,
    ensures
        payload_result(s, at, h) == Err::<Seq<u8>, MuError>(
            MuError(ErrorKind::UnsupportedCompressionMethod(h.compression_method)),
        ),
{
}

} // verus!
