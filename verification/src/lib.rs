//! A DEFLATE compression and decompression facility built around engine
//! pooling and speculative buffer sizing: engines are constructed lazily,
//! kept in single-slot pools, and reused across calls; output buffers are
//! allocated to a worst-case size and truncated to the codec's reported
//! written length.

use vstd::prelude::*;

use ps_buffer::Buffer;

mod codec;
mod engine;
mod error;

pub use codec::Codec;
pub use engine::buffer_bytes;
pub use engine::deflate_of;
pub use engine::inflate_of;
pub use error::PsDeflateError;

verus! {

/// Compresses `data` at the fixed maximum level into a buffer truncated to
/// the written length. Free-function form: each call constructs its own
/// handle; for pooling across calls, hold a [`Codec`] and use its methods,
/// which behave identically.
pub fn compress(data: &[u8]) -> (r: Result<Buffer, PsDeflateError>)
    requires
        data@.len() + 5 <= usize::MAX,
    ensures
        match r {
            Ok(out) => {
                &&& buffer_bytes(out) == deflate_of(data@)
                &&& buffer_bytes(out).len() <= data@.len() + 5
                &&& inflate_of(buffer_bytes(out)) == Some(data@)
            },
            Err(e) => {
                &&& !(e is BadData)
                &&& e is InsufficientSpace ==> deflate_of(data@).len() > data@.len() + 5
            },
        },
{
    let mut codec = Codec::new();
    codec.compress(data)
}

/// Compresses `data` into the caller-sized `out_data`; the raw primitive,
/// without truncation. Free-function form of [`Codec::compress_into`].
pub fn compress_into(data: &[u8], out_data: &mut [u8]) -> (r: Result<usize, PsDeflateError>)
    ensures
        final(out_data)@.len() == old(out_data)@.len(),
        match r {
            Ok(n) => {
                &&& n == deflate_of(data@).len()
                &&& n <= final(out_data)@.len()
                &&& final(out_data)@.subrange(0, n as int) == deflate_of(data@)
                &&& inflate_of(deflate_of(data@)) == Some(data@)
            },
            Err(e) => {
                &&& e == PsDeflateError::InsufficientSpace
                &&& deflate_of(data@).len() > old(out_data)@.len()
            },
        },
{
    let mut codec = Codec::new();
    codec.compress_into(data, out_data)
}

/// Decompresses `data`, which must begin with one raw DEFLATE stream, into
/// a buffer allocated to the declared `out_size` and truncated to the true
/// payload length. Free-function form of [`Codec::decompress`].
pub fn decompress(data: &[u8], out_size: usize) -> (r: Result<Buffer, PsDeflateError>)
    ensures
        match r {
            Ok(out) => {
                &&& inflate_of(data@) == Some(buffer_bytes(out))
                &&& buffer_bytes(out).len() <= out_size
            },
            Err(e) => {
                &&& e is BadData ==> inflate_of(data@) is None
                &&& e is InsufficientSpace ==> (inflate_of(data@) matches Some(payload)
                    ==> payload.len() > out_size)
                &&& !(e is BufferError) ==> !(inflate_of(data@) matches Some(payload)
                    && payload.len() <= out_size)
            },
        },
{
    let mut codec = Codec::new();
    codec.decompress(data, out_size)
}

/// Decompresses `data` into the caller-sized `out_data`; the raw primitive,
/// without truncation. Free-function form of [`Codec::decompress_into`].
pub fn decompress_into(data: &[u8], out_data: &mut [u8]) -> (r: Result<usize, PsDeflateError>)
    ensures
        final(out_data)@.len() == old(out_data)@.len(),
        match r {
            Ok(n) => {
                &&& n <= final(out_data)@.len()
                &&& inflate_of(data@) == Some(final(out_data)@.subrange(0, n as int))
            },
            Err(e) => {
                &&& e is BadData ==> inflate_of(data@) is None
                &&& e is InsufficientSpace ==> (inflate_of(data@) matches Some(payload)
                    ==> payload.len() > old(out_data)@.len())
                &&& e is BadData || e is InsufficientSpace
                &&& !(inflate_of(data@) matches Some(payload) && payload.len() <= old(
                    out_data,
                )@.len())
            },
        },
{
    let mut codec = Codec::new();
    codec.decompress_into(data, out_data)
}

/// Round trip: feeding what `compress` produced back to `decompress`, with
/// the original length as the declared size, recovers the original bytes
/// exactly. The call can fail only on an allocation error or when the
/// compressed stream exceeds the worst-case bound; it never returns bad
/// data, and it never returns different bytes.
pub fn round_trip(codec: &mut Codec, data: &[u8]) -> (r: Result<Buffer, PsDeflateError>)
    requires
        data@.len() + 5 <= usize::MAX,
    ensures
        r matches Ok(out) ==> buffer_bytes(out) == data@,
        r matches Err(e) ==> !(e is BadData),
        r matches Err(e) && e is InsufficientSpace ==> deflate_of(data@).len() > data@.len() + 5,
{
    let compressed = match codec.compress(data) {
        Ok(out) => out,
        Err(error) => {
            return Err(error);
        },
    };
    codec.decompress(engine::buffer_as_slice(&compressed), data.len())
}

} // verus!
