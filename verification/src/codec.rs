//! The codec handle: one single-slot pool per direction, and the
//! buffer-sizing orchestration around each codec call. Every call brackets
//! the codec invocation with an acquire from and a release back to the slot,
//! on the error path too, so no engine is ever stranded.

use vstd::prelude::*;

use libdeflater::{Compressor, Decompressor};
use ps_buffer::Buffer;

use crate::engine::{
    buffer_alloc, buffer_bytes, buffer_truncate, deflate_compress, deflate_compress_into_buffer,
    deflate_decompress, deflate_decompress_into_buffer, deflate_of, inflate_of, new_compressor,
    new_decompressor,
};
use crate::error::PsDeflateError;

verus! {

/// A codec handle. It owns two engine slots, one per direction, each holding
/// at most one idle engine. The slots start empty, are filled on first use,
/// and keep their engine across calls until the handle is dropped.
pub struct Codec {
    compressor: Option<Compressor>,
    decompressor: Option<Decompressor>,
}

impl Codec {
    /// The content of the compressor slot.
    pub closed spec fn pooled_compressor(&self) -> Option<Compressor> {
        self.compressor
    }

    /// The content of the decompressor slot.
    pub closed spec fn pooled_decompressor(&self) -> Option<Decompressor> {
        self.decompressor
    }

    /// Whether the compressor slot holds an idle engine.
    pub open spec fn compressor_pooled(&self) -> bool {
        self.pooled_compressor() is Some
    }

    /// Whether the decompressor slot holds an idle engine.
    pub open spec fn decompressor_pooled(&self) -> bool {
        self.pooled_decompressor() is Some
    }

    /// A fresh handle with both engine slots empty: nothing is allocated
    /// until the first call.
    pub fn new() -> (r: Codec)
        ensures
            !r.compressor_pooled(),
            !r.decompressor_pooled(),
    {
        Codec { compressor: None, decompressor: None }
    }

    /// Compresses `data` into the caller-sized `out_data`, returning the
    /// number of bytes written. The raw primitive: no truncation is done
    /// here.
    pub fn compress_into(&mut self, data: &[u8], out_data: &mut [u8]) -> (r: Result<
        usize,
        PsDeflateError,
    >)
        ensures
            final(self).compressor_pooled(),
            old(self).compressor_pooled() ==> final(self).pooled_compressor() == old(
                self,
            ).pooled_compressor(),
            final(self).pooled_decompressor() == old(self).pooled_decompressor(),
            final(out_data)@.len() == old(out_data)@.len(),
            match r {
                Ok(n) => {
                    &&& n == deflate_of(data@).len()
                    &&& n <= final(out_data)@.len()
                    &&& final(out_data)@.subrange(0, n as int) == deflate_of(data@)
                    &&& inflate_of(deflate_of(data@)) == Some(data@)
                },
                Err(e) => {
                    &&& e == PsDeflateError::InsufficientSpace
                    &&& deflate_of(data@).len() > old(out_data)@.len()
                },
            },
    {
        let mut engine: Compressor = match self.compressor.take() {
            Some(engine) => engine,
            None => new_compressor(),
        };
        let result = deflate_compress(&mut engine, data, out_data);
        self.compressor = Some(engine);
        match result {
            Ok(written) => Ok(written),
            Err(error) => Err(PsDeflateError::from(error)),
        }
    }

    /// Compresses `data` into a buffer allocated to the worst-case size
    /// `data.len() + 5` — the fixed stored-block overhead of the codec —
    /// then truncated to the written length.
    pub fn compress(&mut self, data: &[u8]) -> (r: Result<Buffer, PsDeflateError>)
        requires
            data@.len() + 5 <= usize::MAX,
        ensures
            final(self).pooled_decompressor() == old(self).pooled_decompressor(),
            old(self).compressor_pooled() ==> final(self).pooled_compressor() == old(
                self,
            ).pooled_compressor(),
            !(r matches Err(e) && e is BufferError) ==> final(self).compressor_pooled(),
            match r {
                Ok(out) => {
                    &&& buffer_bytes(out) == deflate_of(data@)
                    &&& buffer_bytes(out).len() <= data@.len() + 5
                    &&& inflate_of(buffer_bytes(out)) == Some(data@)
                },
                Err(e) => {
                    &&& !(e is BadData)
                    &&& e is InsufficientSpace ==> deflate_of(data@).len() > data@.len() + 5
                },
            },
    {
        let out_size = data.len() + 5;
        let mut out_data = match buffer_alloc(out_size) {
            Ok(buffer) => buffer,
            Err(error) => {
                return Err(PsDeflateError::from(error));
            },
        };

        let size = match self.compress_into_buffer(data, &mut out_data) {
            Ok(written) => written,
            Err(error) => {
                return Err(error);
            },
        };

        if size < out_size {
            buffer_truncate(&mut out_data, size);
        }
        proof {
            assert(buffer_bytes(out_data) =~= deflate_of(data@));
        }

        Ok(out_data)
    }

    /// Decompresses `data` into the caller-sized `out_data`, returning the
    /// number of bytes written. The raw primitive: no truncation is done
    /// here. The caller must know an upper bound of the decompressed size;
    /// a shorter `out_data` is answered with an insufficient-space error,
    /// never with truncated data.
    pub fn decompress_into(&mut self, data: &[u8], out_data: &mut [u8]) -> (r: Result<
        usize,
        PsDeflateError,
    >)
        ensures
            final(self).decompressor_pooled(),
            old(self).decompressor_pooled() ==> final(self).pooled_decompressor() == old(
                self,
            ).pooled_decompressor(),
            final(self).pooled_compressor() == old(self).pooled_compressor(),
            final(out_data)@.len() == old(out_data)@.len(),
            match r {
                Ok(n) => {
                    &&& n <= final(out_data)@.len()
                    &&& inflate_of(data@) == Some(final(out_data)@.subrange(0, n as int))
                },
                Err(e) => {
                    &&& e is BadData ==> inflate_of(data@) is None
                    &&& e is InsufficientSpace ==> (inflate_of(data@) matches Some(payload)
                        ==> payload.len() > old(out_data)@.len())
                    &&& e is BadData || e is InsufficientSpace
                    &&& !(inflate_of(data@) matches Some(payload) && payload.len() <= old(
                        out_data,
                    )@.len())
                },
            },
    {
        let mut engine: Decompressor = match self.decompressor.take() {
            Some(engine) => engine,
            None => new_decompressor(),
        };
        let result = deflate_decompress(&mut engine, data, out_data);
        self.decompressor = Some(engine);
        match result {
            Ok(written) => Ok(written),
            Err(error) => Err(PsDeflateError::from(error)),
        }
    }

    /// Decompresses `data` into a buffer allocated to exactly `out_size` —
    /// the caller's declared expected size — then truncated to the written
    /// length, so the returned buffer's length equals the true payload size.
    pub fn decompress(&mut self, data: &[u8], out_size: usize) -> (r: Result<
        Buffer,
        PsDeflateError,
    >)
        ensures
            final(self).pooled_compressor() == old(self).pooled_compressor(),
            old(self).decompressor_pooled() ==> final(self).pooled_decompressor() == old(
                self,
            ).pooled_decompressor(),
            !(r matches Err(e) && e is BufferError) ==> final(self).decompressor_pooled(),
            match r {
                Ok(out) => {
                    &&& inflate_of(data@) == Some(buffer_bytes(out))
                    &&& buffer_bytes(out).len() <= out_size
                },
                Err(e) => {
                    &&& e is BadData ==> inflate_of(data@) is None
                    &&& e is InsufficientSpace ==> (inflate_of(data@) matches Some(payload)
                        ==> payload.len() > out_size)
                    &&& !(e is BufferError) ==> !(inflate_of(data@) matches Some(payload)
                        && payload.len() <= out_size)
                },
            },
    {
        let mut out_data = match buffer_alloc(out_size) {
            Ok(buffer) => buffer,
            Err(error) => {
                return Err(PsDeflateError::from(error));
            },
        };

        let size = match self.decompress_into_buffer(data, &mut out_data) {
            Ok(written) => written,
            Err(error) => {
                return Err(error);
            },
        };

        if size < out_size {
            buffer_truncate(&mut out_data, size);
        }
        proof {
            assert(Some(buffer_bytes(out_data)) =~= inflate_of(data@));
        }

        Ok(out_data)
    }

    /// The compressing codec pass of `compress`, on the allocated buffer:
    /// acquires the pooled engine, runs the codec, releases the engine.
    fn compress_into_buffer(&mut self, data: &[u8], out_data: &mut Buffer) -> (r: Result<
        usize,
        PsDeflateError,
    >)
        ensures
            final(self).compressor_pooled(),
            old(self).compressor_pooled() ==> final(self).pooled_compressor() == old(
                self,
            ).pooled_compressor(),
            final(self).pooled_decompressor() == old(self).pooled_decompressor(),
            buffer_bytes(*final(out_data)).len() == buffer_bytes(*old(out_data)).len(),
            match r {
                Ok(n) => {
                    &&& n == deflate_of(data@).len()
                    &&& n <= buffer_bytes(*final(out_data)).len()
                    &&& buffer_bytes(*final(out_data)).subrange(0, n as int) == deflate_of(data@)
                    &&& inflate_of(deflate_of(data@)) == Some(data@)
                },
                Err(e) => {
                    &&& e == PsDeflateError::InsufficientSpace
                    &&& deflate_of(data@).len() > buffer_bytes(*old(out_data)).len()
                },
            },
    {
        let mut engine: Compressor = match self.compressor.take() {
            Some(engine) => engine,
            None => new_compressor(),
        };
        let result = deflate_compress_into_buffer(&mut engine, data, out_data);
        self.compressor = Some(engine);
        match result {
            Ok(written) => Ok(written),
            Err(error) => Err(PsDeflateError::from(error)),
        }
    }

    /// The decompressing codec pass of `decompress`, on the allocated
    /// buffer: acquires the pooled engine, runs the codec, releases the
    /// engine.
    fn decompress_into_buffer(&mut self, data: &[u8], out_data: &mut Buffer) -> (r: Result<
        usize,
        PsDeflateError,
    >)
        ensures
            final(self).decompressor_pooled(),
            old(self).decompressor_pooled() ==> final(self).pooled_decompressor() == old(
                self,
            ).pooled_decompressor(),
            final(self).pooled_compressor() == old(self).pooled_compressor(),
            buffer_bytes(*final(out_data)).len() == buffer_bytes(*old(out_data)).len(),
            match r {
                Ok(n) => {
                    &&& n <= buffer_bytes(*final(out_data)).len()
                    &&& inflate_of(data@) == Some(
                        buffer_bytes(*final(out_data)).subrange(0, n as int),
                    )
                },
                Err(e) => {
                    &&& e is BadData ==> inflate_of(data@) is None
                    &&& e is InsufficientSpace ==> (inflate_of(data@) matches Some(payload)
                        ==> payload.len() > buffer_bytes(*old(out_data)).len())
                    &&& e is BadData || e is InsufficientSpace
                    &&& !(inflate_of(data@) matches Some(payload) && payload.len() <= buffer_bytes(
                        *old(out_data),
                    ).len())
                },
            },
    {
        let mut engine: Decompressor = match self.decompressor.take() {
            Some(engine) => engine,
            None => new_decompressor(),
        };
        let result = deflate_decompress_into_buffer(&mut engine, data, out_data);
        self.decompressor = Some(engine);
        match result {
            Ok(written) => Ok(written),
            Err(error) => Err(PsDeflateError::from(error)),
        }
    }
}

impl Default for Codec {
    /// Defaulting yields a brand-new handle with empty slots.
    fn default() -> (r: Self)
        ensures
            !r.compressor_pooled(),
            !r.decompressor_pooled(),
    {
        Codec::new()
    }
}

impl Clone for Codec {
    /// Cloning yields a brand-new handle with empty slots: pooled state is
    /// never copied, only the construction discipline is shared.
    fn clone(&self) -> (r: Self)
        ensures
            !r.compressor_pooled(),
            !r.decompressor_pooled(),
    {
        Codec::new()
    }
}

} // verus!
