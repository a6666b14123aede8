//! The boundary to the two outside collaborators: the DEFLATE codec engines
//! of `libdeflater` and the growable byte buffer of `ps_buffer`. Every item
//! here either declares an outside type or wraps exactly one outside call
//! behind a contract.

use vstd::prelude::*;

use libdeflater::{CompressionError, CompressionLvl, Compressor, DecompressionError, Decompressor};
use ps_buffer::{Buffer, BufferError};

verus! {

#[verifier::external_type_specification]
#[verifier::external_body]
pub struct ExCompressor(Compressor);

#[verifier::external_type_specification]
#[verifier::external_body]
pub struct ExDecompressor(Decompressor);

#[verifier::external_type_specification]
pub struct ExCompressionError(CompressionError);

#[verifier::external_type_specification]
pub struct ExDecompressionError(DecompressionError);

#[verifier::external_type_specification]
#[verifier::external_body]
pub struct ExBuffer(Buffer);

#[verifier::external_type_specification]
#[verifier::external_body]
pub struct ExBufferError(BufferError);

/// Relies on the derived `Clone` of `ps_buffer::BufferError`; nothing is
/// claimed of the copy.
pub assume_specification[ <ps_buffer::BufferError as std::clone::Clone>::clone ](
    e: &ps_buffer::BufferError,
) -> ps_buffer::BufferError;

/// The raw DEFLATE stream that the codec emits for `data` at the fixed
/// maximum compression level: a function of the input bytes alone for the
/// codec version this crate builds against, which is pinned.
pub uninterp spec fn deflate_of(data: Seq<u8>) -> Seq<u8>;

/// What a byte sequence decodes to under DEFLATE: `Some` of the payload when
/// the sequence begins with one well-formed stream (bytes past the stream's
/// marked end are ignored), `None` when decoding fails.
pub uninterp spec fn inflate_of(data: Seq<u8>) -> Option<Seq<u8>>;

/// The bytes a `ps_buffer::Buffer` holds, first to last.
pub uninterp spec fn buffer_bytes(b: Buffer) -> Seq<u8>;

/// Relies on libdeflater's `Compressor::new` and `CompressionLvl::best`:
/// a fresh compressor engine pinned to the highest compression level.
#[verifier::external_body]
pub(crate) fn new_compressor() -> Compressor {
    Compressor::new(CompressionLvl::best())
}

/// Relies on libdeflater's `Decompressor::new`: a fresh decompressor engine;
/// it takes no configuration.
#[verifier::external_body]
pub(crate) fn new_decompressor() -> Decompressor {
    Decompressor::new()
}

/// Relies on libdeflater's `Compressor::deflate_compress`: when the stream
/// for `data` fits in `out`, it is written at the front and its length
/// returned; otherwise nothing but insufficient space is reported. The
/// stream is a well-formed DEFLATE encoding of `data`, so decoding it
/// yields `data` again. The engine value is only read, never replaced; only
/// internal state behind it changes.
#[verifier::external_body]
pub(crate) fn deflate_compress(
    c: &mut Compressor,
    data: &[u8],
    out: &mut [u8],
) -> (r: Result<usize, CompressionError>)
    ensures
        *final(c) == *old(c),
        final(out)@.len() == old(out)@.len(),
        match r {
            Ok(n) => {
                &&& n == deflate_of(data@).len()
                &&& n <= final(out)@.len()
                &&& final(out)@.subrange(0, n as int) == deflate_of(data@)
                &&& inflate_of(deflate_of(data@)) == Some(data@)
            },
            Err(e) => {
                &&& e == CompressionError::InsufficientSpace
                &&& deflate_of(data@).len() > old(out)@.len()
            },
        },
{
    c.deflate_compress(data, out)
}

/// Relies on libdeflater's `Decompressor::deflate_decompress`: when `data`
/// begins with one well-formed DEFLATE stream whose payload fits in `out`,
/// the payload is written at the front and its length returned; a malformed
/// stream is reported as bad data, a payload larger than `out` as
/// insufficient space. On failure the bytes of `out` are unspecified. The
/// engine value is only read, never replaced.
#[verifier::external_body]
pub(crate) fn deflate_decompress(
    d: &mut Decompressor,
    data: &[u8],
    out: &mut [u8],
) -> (r: Result<usize, DecompressionError>)
    ensures
        *final(d) == *old(d),
        final(out)@.len() == old(out)@.len(),
        match r {
            Ok(n) => {
                &&& n <= final(out)@.len()
                &&& inflate_of(data@) == Some(final(out)@.subrange(0, n as int))
            },
            Err(e) => {
                &&& e == DecompressionError::BadData ==> inflate_of(data@) is None
                &&& e == DecompressionError::InsufficientSpace ==> (inflate_of(data@) matches Some(
                    payload,
                ) ==> payload.len() > old(out)@.len())
                &&& !(inflate_of(data@) matches Some(payload) && payload.len() <= old(out)@.len())
            },
        },
{
    d.deflate_decompress(data, out)
}

/// Relies on libdeflater's `Compressor::deflate_compress`, reached through
/// `Buffer::as_mut_slice`: the same contract as the slice form, stated over
/// the buffer's bytes.
#[verifier::external_body]
pub(crate) fn deflate_compress_into_buffer(
    c: &mut Compressor,
    data: &[u8],
    out: &mut Buffer,
) -> (r: Result<usize, CompressionError>)
    ensures
        *final(c) == *old(c),
        buffer_bytes(*final(out)).len() == buffer_bytes(*old(out)).len(),
        match r {
            Ok(n) => {
                &&& n == deflate_of(data@).len()
                &&& n <= buffer_bytes(*final(out)).len()
                &&& buffer_bytes(*final(out)).subrange(0, n as int) == deflate_of(data@)
                &&& inflate_of(deflate_of(data@)) == Some(data@)
            },
            Err(e) => {
                &&& e == CompressionError::InsufficientSpace
                &&& deflate_of(data@).len() > buffer_bytes(*old(out)).len()
            },
        },
{
    c.deflate_compress(data, out.as_mut_slice())
}

/// Relies on libdeflater's `Decompressor::deflate_decompress`, reached
/// through `Buffer::as_mut_slice`: the same contract as the slice form,
/// stated over the buffer's bytes.
#[verifier::external_body]
pub(crate) fn deflate_decompress_into_buffer(
    d: &mut Decompressor,
    data: &[u8],
    out: &mut Buffer,
) -> (r: Result<usize, DecompressionError>)
    ensures
        *final(d) == *old(d),
        buffer_bytes(*final(out)).len() == buffer_bytes(*old(out)).len(),
        match r {
            Ok(n) => {
                &&& n <= buffer_bytes(*final(out)).len()
                &&& inflate_of(data@) == Some(buffer_bytes(*final(out)).subrange(0, n as int))
            },
            Err(e) => {
                &&& e == DecompressionError::BadData ==> inflate_of(data@) is None
                &&& e == DecompressionError::InsufficientSpace ==> (inflate_of(data@) matches Some(
                    payload,
                ) ==> payload.len() > buffer_bytes(*old(out)).len())
                &&& !(inflate_of(data@) matches Some(payload) && payload.len() <= buffer_bytes(
                    *old(out),
                ).len())
            },
        },
{
    d.deflate_decompress(data, out.as_mut_slice())
}

/// Relies on `ps_buffer::Buffer::alloc`: a buffer of `length` zero bytes, or
/// an allocation error.
#[verifier::external_body]
pub(crate) fn buffer_alloc(length: usize) -> (r: Result<Buffer, BufferError>)
    ensures
        r matches Ok(b) ==> buffer_bytes(b) == Seq::<u8>::new(length as nat, |i: int| 0u8),
{
    Buffer::alloc(length)
}

/// Relies on `ps_buffer::Buffer::truncate`: shortens the buffer to `length`
/// bytes when it is at least that long, and leaves it unchanged otherwise.
#[verifier::external_body]
pub(crate) fn buffer_truncate(b: &mut Buffer, length: usize)
    ensures
        length <= buffer_bytes(*old(b)).len() ==> buffer_bytes(*final(b)) == buffer_bytes(
            *old(b),
        ).subrange(0, length as int),
        length > buffer_bytes(*old(b)).len() ==> buffer_bytes(*final(b)) == buffer_bytes(*old(b)),
{
    b.truncate(length);
}

/// Relies on `ps_buffer::Buffer::as_slice`: a view of exactly the bytes the
/// buffer holds.
#[verifier::external_body]
pub(crate) fn buffer_as_slice(b: &Buffer) -> (r: &[u8])
    ensures
        r@ == buffer_bytes(*b),
{
    b.as_slice()
}

} // verus!
