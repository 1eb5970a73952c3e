//! Decoding of PCM: bytes that hold the samples as they are.

use byte_slice_cast::AsMutByteSlice;
use vstd::prelude::*;
use crate::error::PhonicError;
use crate::layout::SampleFormat;
use crate::signal_spec::SignalSpec;
use crate::stream::{Stream, StreamReader};
use crate::stream_spec::StreamParams;

verus! {

/// The bytes behind a buffer of `u8` samples.
///
/// Calls `as_mut_byte_slice` of `byte_slice_cast`, which hands out the memory
/// of the samples as bytes: one byte for every sample. Which bytes stand for
/// which value depends on the machine, and nothing is said of it.
#[verifier::external_body]
fn bytes_of_u8(buf: &mut [u8]) -> (bytes: &mut [u8])
    ensures
        bytes@.len() == old(buf)@.len() * 1,
        final(bytes)@.len() == bytes@.len(),
        final(buf)@.len() == old(buf)@.len(),
{
    buf.as_mut_byte_slice()
}

/// The bytes behind a buffer of `u16` samples.
///
/// Calls `as_mut_byte_slice` of `byte_slice_cast`, which hands out the memory
/// of the samples as bytes: 2 bytes for every sample. Which bytes stand for
/// which value depends on the machine, and nothing is said of it.
#[verifier::external_body]
fn bytes_of_u16(buf: &mut [u16]) -> (bytes: &mut [u8])
    ensures
        bytes@.len() == old(buf)@.len() * 2,
        final(bytes)@.len() == bytes@.len(),
        final(buf)@.len() == old(buf)@.len(),
{
    buf.as_mut_byte_slice()
}

/// The bytes behind a buffer of `u32` samples.
///
/// Calls `as_mut_byte_slice` of `byte_slice_cast`, which hands out the memory
/// of the samples as bytes: 4 bytes for every sample. Which bytes stand for
/// which value depends on the machine, and nothing is said of it.
#[verifier::external_body]
fn bytes_of_u32(buf: &mut [u32]) -> (bytes: &mut [u8])
    ensures
        bytes@.len() == old(buf)@.len() * 4,
        final(bytes)@.len() == bytes@.len(),
        final(buf)@.len() == old(buf)@.len(),
{
    buf.as_mut_byte_slice()
}

/// The bytes behind a buffer of `u64` samples.
///
/// Calls `as_mut_byte_slice` of `byte_slice_cast`, which hands out the memory
/// of the samples as bytes: 8 bytes for every sample. Which bytes stand for
/// which value depends on the machine, and nothing is said of it.
#[verifier::external_body]
fn bytes_of_u64(buf: &mut [u64]) -> (bytes: &mut [u8])
    ensures
        bytes@.len() == old(buf)@.len() * 8,
        final(bytes)@.len() == bytes@.len(),
        final(buf)@.len() == old(buf)@.len(),
{
    buf.as_mut_byte_slice()
}

/// The bytes behind a buffer of `i8` samples.
///
/// Calls `as_mut_byte_slice` of `byte_slice_cast`, which hands out the memory
/// of the samples as bytes: one byte for every sample. Which bytes stand for
/// which value depends on the machine, and nothing is said of it.
#[verifier::external_body]
fn bytes_of_i8(buf: &mut [i8]) -> (bytes: &mut [u8])
    ensures
        bytes@.len() == old(buf)@.len() * 1,
        final(bytes)@.len() == bytes@.len(),
        final(buf)@.len() == old(buf)@.len(),
{
    buf.as_mut_byte_slice()
}

/// The bytes behind a buffer of `i16` samples.
///
/// Calls `as_mut_byte_slice` of `byte_slice_cast`, which hands out the memory
/// of the samples as bytes: 2 bytes for every sample. Which bytes stand for
/// which value depends on the machine, and nothing is said of it.
#[verifier::external_body]
fn bytes_of_i16(buf: &mut [i16]) -> (bytes: &mut [u8])
    ensures
        bytes@.len() == old(buf)@.len() * 2,
        final(bytes)@.len() == bytes@.len(),
        final(buf)@.len() == old(buf)@.len(),
{
    buf.as_mut_byte_slice()
}

/// The bytes behind a buffer of `i32` samples.
///
/// Calls `as_mut_byte_slice` of `byte_slice_cast`, which hands out the memory
/// of the samples as bytes: 4 bytes for every sample. Which bytes stand for
/// which value depends on the machine, and nothing is said of it.
#[verifier::external_body]
fn bytes_of_i32(buf: &mut [i32]) -> (bytes: &mut [u8])
    ensures
        bytes@.len() == old(buf)@.len() * 4,
        final(bytes)@.len() == bytes@.len(),
        final(buf)@.len() == old(buf)@.len(),
{
    buf.as_mut_byte_slice()
}

/// The bytes behind a buffer of `i64` samples.
///
/// Calls `as_mut_byte_slice` of `byte_slice_cast`, which hands out the memory
/// of the samples as bytes: 8 bytes for every sample. Which bytes stand for
/// which value depends on the machine, and nothing is said of it.
#[verifier::external_body]
fn bytes_of_i64(buf: &mut [i64]) -> (bytes: &mut [u8])
    ensures
        bytes@.len() == old(buf)@.len() * 8,
        final(bytes)@.len() == bytes@.len(),
        final(buf)@.len() == old(buf)@.len(),
{
    buf.as_mut_byte_slice()
}

/// A sample type whose buffers can be filled from bytes: the integers.
pub trait PcmSample: Copy + Sized {
    /// The format of this type.
    open spec fn format_of() -> SampleFormat {
        arbitrary()
    }

    /// The format of this type.
    fn format() -> (f: SampleFormat)
        ensures
            f == Self::format_of(),
    ;

    /// The bytes behind a buffer of samples: as many as there are samples,
    /// times the size of one.
    fn as_mut_bytes(buf: &mut [Self]) -> (bytes: &mut [u8])
        ensures
            bytes@.len() == old(buf)@.len() * Self::format_of().size_spec(),
            final(bytes)@.len() == bytes@.len(),
            final(buf)@.len() == old(buf)@.len(),
    ;
}

impl PcmSample for u8 {
    open spec fn format_of() -> SampleFormat {
        SampleFormat::U8
    }

    fn format() -> (f: SampleFormat) {
        SampleFormat::U8
    }

    fn as_mut_bytes(buf: &mut [Self]) -> (bytes: &mut [u8]) {
        bytes_of_u8(buf)
    }
}

impl PcmSample for u16 {
    open spec fn format_of() -> SampleFormat {
        SampleFormat::U16
    }

    fn format() -> (f: SampleFormat) {
        SampleFormat::U16
    }

    fn as_mut_bytes(buf: &mut [Self]) -> (bytes: &mut [u8]) {
        bytes_of_u16(buf)
    }
}

impl PcmSample for u32 {
    open spec fn format_of() -> SampleFormat {
        SampleFormat::U32
    }

    fn format() -> (f: SampleFormat) {
        SampleFormat::U32
    }

    fn as_mut_bytes(buf: &mut [Self]) -> (bytes: &mut [u8]) {
        bytes_of_u32(buf)
    }
}

impl PcmSample for u64 {
    open spec fn format_of() -> SampleFormat {
        SampleFormat::U64
    }

    fn format() -> (f: SampleFormat) {
        SampleFormat::U64
    }

    fn as_mut_bytes(buf: &mut [Self]) -> (bytes: &mut [u8]) {
        bytes_of_u64(buf)
    }
}

impl PcmSample for i8 {
    open spec fn format_of() -> SampleFormat {
        SampleFormat::I8
    }

    fn format() -> (f: SampleFormat) {
        SampleFormat::I8
    }

    fn as_mut_bytes(buf: &mut [Self]) -> (bytes: &mut [u8]) {
        bytes_of_i8(buf)
    }
}

impl PcmSample for i16 {
    open spec fn format_of() -> SampleFormat {
        SampleFormat::I16
    }

    fn format() -> (f: SampleFormat) {
        SampleFormat::I16
    }

    fn as_mut_bytes(buf: &mut [Self]) -> (bytes: &mut [u8]) {
        bytes_of_i16(buf)
    }
}

impl PcmSample for i32 {
    open spec fn format_of() -> SampleFormat {
        SampleFormat::I32
    }

    fn format() -> (f: SampleFormat) {
        SampleFormat::I32
    }

    fn as_mut_bytes(buf: &mut [Self]) -> (bytes: &mut [u8]) {
        bytes_of_i32(buf)
    }
}

impl PcmSample for i64 {
    open spec fn format_of() -> SampleFormat {
        SampleFormat::I64
    }

    fn format() -> (f: SampleFormat) {
        SampleFormat::I64
    }

    fn as_mut_bytes(buf: &mut [Self]) -> (bytes: &mut [u8]) {
        bytes_of_i64(buf)
    }
}

/// A reader of samples, tagged with the type of sample that it gives.
#[derive(Debug)]
pub enum SampleReaderRef<D> {
    /// Gives samples of the format `U8`.
    U8(D),
    /// Gives samples of the format `U16`.
    U16(D),
    /// Gives samples of the format `U32`.
    U32(D),
    /// Gives samples of the format `U64`.
    U64(D),
    /// Gives samples of the format `I8`.
    I8(D),
    /// Gives samples of the format `I16`.
    I16(D),
    /// Gives samples of the format `I32`.
    I32(D),
    /// Gives samples of the format `I64`.
    I64(D),
    /// Gives samples of the format `F32`.
    F32(D),
    /// Gives samples of the format `F64`.
    F64(D),
}

impl<D> SampleReaderRef<D> {
    /// The format of the samples.
    pub open spec fn format_of(self) -> SampleFormat {
        match self {
            SampleReaderRef::U8(_) => SampleFormat::U8,
            SampleReaderRef::U16(_) => SampleFormat::U16,
            SampleReaderRef::U32(_) => SampleFormat::U32,
            SampleReaderRef::U64(_) => SampleFormat::U64,
            SampleReaderRef::I8(_) => SampleFormat::I8,
            SampleReaderRef::I16(_) => SampleFormat::I16,
            SampleReaderRef::I32(_) => SampleFormat::I32,
            SampleReaderRef::I64(_) => SampleFormat::I64,
            SampleReaderRef::F32(_) => SampleFormat::F32,
            SampleReaderRef::F64(_) => SampleFormat::F64,
        }
    }

    /// The reader.
    pub open spec fn reader_of(self) -> D {
        match self {
            SampleReaderRef::U8(reader) => reader,
            SampleReaderRef::U16(reader) => reader,
            SampleReaderRef::U32(reader) => reader,
            SampleReaderRef::U64(reader) => reader,
            SampleReaderRef::I8(reader) => reader,
            SampleReaderRef::I16(reader) => reader,
            SampleReaderRef::I32(reader) => reader,
            SampleReaderRef::I64(reader) => reader,
            SampleReaderRef::F32(reader) => reader,
            SampleReaderRef::F64(reader) => reader,
        }
    }

    /// The format of the samples.
    pub fn format(&self) -> (f: SampleFormat)
        ensures
            f == self.format_of(),
    {
        match self {
            SampleReaderRef::U8(_) => SampleFormat::U8,
            SampleReaderRef::U16(_) => SampleFormat::U16,
            SampleReaderRef::U32(_) => SampleFormat::U32,
            SampleReaderRef::U64(_) => SampleFormat::U64,
            SampleReaderRef::I8(_) => SampleFormat::I8,
            SampleReaderRef::I16(_) => SampleFormat::I16,
            SampleReaderRef::I32(_) => SampleFormat::I32,
            SampleReaderRef::I64(_) => SampleFormat::I64,
            SampleReaderRef::F32(_) => SampleFormat::F32,
            SampleReaderRef::F64(_) => SampleFormat::F64,
        }
    }

    /// Gives the reader back.
    pub fn into_reader(self) -> (reader: D)
        ensures
            reader == self.reader_of(),
    {
        match self {
            SampleReaderRef::U8(reader) => reader,
            SampleReaderRef::U16(reader) => reader,
            SampleReaderRef::U32(reader) => reader,
            SampleReaderRef::U64(reader) => reader,
            SampleReaderRef::I8(reader) => reader,
            SampleReaderRef::I16(reader) => reader,
            SampleReaderRef::I32(reader) => reader,
            SampleReaderRef::I64(reader) => reader,
            SampleReaderRef::F32(reader) => reader,
            SampleReaderRef::F64(reader) => reader,
        }
    }
}

/// The size in bytes of one frame of samples of `format`: one sample for
/// every channel of the stream.
pub open spec fn pcm_frame_bytes(spec: StreamParams, format: SampleFormat) -> nat {
    spec.decoded_spec.channels.count_spec() * format.size_spec()
}

/// A stream can be decoded as PCM of `format` where its samples are stored
/// in the size of that format, it has a channel, and a frame is a whole
/// number of blocks.
pub open spec fn pcm_decodes(spec: StreamParams, format: SampleFormat) -> bool {
    &&& spec.sample_layout.size == format.size_spec()
    &&& spec.block_align > 0
    &&& spec.decoded_spec.channels.count_spec() > 0
    &&& pcm_frame_bytes(spec, format) % (spec.block_align as nat) == 0
}

/// How many samples of a buffer of `buf_len` samples a read fills at most:
/// as many as make whole frames of `channels` samples.
pub open spec fn pcm_request(channels: nat, buf_len: nat) -> nat
    recommends
        channels > 0,
{
    (buf_len - buf_len % channels) as nat
}

/// What a read returns once the stream has answered: the bytes that came,
/// counted in samples of `width` bytes, where they make whole frames of
/// `channels` samples; `StreamMismatch` where they end inside a frame; and
/// an error as it came.
pub open spec fn pcm_answer(channels: nat, width: nat, step: Result<usize, PhonicError>) -> Result<
    usize,
    PhonicError,
>
    recommends
        channels > 0,
        width > 0,
{
    match step {
        Ok(n) => if n as nat % (channels * width) == 0 {
            Ok((n as nat / width) as usize)
        } else {
            Err(PhonicError::StreamMismatch)
        },
        Err(e) => Err(e),
    }
}

/// A decoder of PCM: it reads the bytes of a stream straight into a buffer
/// of samples.
#[derive(Debug)]
pub struct PcmDecoder<R> {
    reader: R,
    format: SampleFormat,
}

impl<R> PcmDecoder<R> {
    /// The stream that is decoded.
    pub closed spec fn reader_of(self) -> R {
        self.reader
    }

    /// The format of the samples.
    pub closed spec fn format_of(self) -> SampleFormat {
        self.format
    }

    /// The decoder, tagged with the format of its samples.
    pub fn into_sample_reader_ref(self) -> (r: SampleReaderRef<Self>)
        ensures
            r.format_of() == self.format_of(),
            r.reader_of() == self,
    {
        match self.format {
            SampleFormat::U8 => SampleReaderRef::U8(self),
            SampleFormat::U16 => SampleReaderRef::U16(self),
            SampleFormat::U32 => SampleReaderRef::U32(self),
            SampleFormat::U64 => SampleReaderRef::U64(self),
            SampleFormat::I8 => SampleReaderRef::I8(self),
            SampleFormat::I16 => SampleReaderRef::I16(self),
            SampleFormat::I32 => SampleReaderRef::I32(self),
            SampleFormat::I64 => SampleReaderRef::I64(self),
            SampleFormat::F32 => SampleReaderRef::F32(self),
            SampleFormat::F64 => SampleReaderRef::F64(self),
        }
    }
}

impl<R: StreamReader> PcmDecoder<R> {
    /// A decoder of `reader` that gives samples of `format`. Fails with
    /// `BadRequest` where the stream cannot be decoded so.
    pub fn new(reader: R, format: SampleFormat) -> (r: Result<Self, PhonicError>)
        ensures
            pcm_decodes(reader.stream_spec_of().params(), format) ==> (r matches Ok(d)
                && d.reader_of() == reader && d.format_of() == format),
            !pcm_decodes(reader.stream_spec_of().params(), format) ==> (r matches Err(e) && e
                == PhonicError::BadRequest),
    {
        let spec = reader.stream_spec();
        let width: usize = format.size();
        if spec.sample_layout.size != width || spec.block_align == 0 {
            return Err(PhonicError::BadRequest);
        }
        let channels: u32 = spec.decoded_spec.channels.count();
        if channels == 0 {
            return Err(PhonicError::BadRequest);
        }
        let frame_bytes: usize = (channels as usize) * width;
        if frame_bytes % spec.block_align != 0 {
            return Err(PhonicError::BadRequest);
        }
        Ok(PcmDecoder { reader, format })
    }

    /// The description of the signal that decoding gives.
    pub fn decoded_spec(&self) -> (s: &SignalSpec)
        ensures
            *s == self.reader_of().stream_spec_of().decoded_spec,
    {
        &self.reader.stream_spec().decoded_spec
    }

    /// What a read into a buffer of `buf_len` samples of the type `S` may do.
    ///
    /// A stream without channels gives `BadRequest`, and nothing happens.
    /// Otherwise the stream is read once, into the bytes behind the first
    /// `pcm_request` samples of the buffer, and `pcm_answer` says what is
    /// returned.
    pub open spec fn reads<S: PcmSample>(
        pre: Self,
        buf_len: nat,
        post: Self,
        r: Result<usize, PhonicError>,
    ) -> bool {
        let channels = pre.reader_of().stream_spec_of().decoded_spec.channels.count_spec();
        let width = S::format_of().size_spec();
        &&& post.format_of() == pre.format_of()
        &&& if channels == 0 {
            post == pre && r == Err::<usize, PhonicError>(PhonicError::BadRequest)
        } else {
            exists|bytes_pre: Seq<u8>, bytes_post: Seq<u8>, step: Result<usize, PhonicError>|
                {
                    &&& #[trigger] R::reads(
                        pre.reader_of(),
                        bytes_pre,
                        post.reader_of(),
                        bytes_post,
                        step,
                    )
                    &&& bytes_pre.len() == pcm_request(channels, buf_len) * width
                    &&& r == pcm_answer(channels, width, step)
                }
        }
    }

    /// Reads samples into a prefix of `buffer` and returns how many. Only
    /// whole frames are asked for, and only whole frames are accepted.
    pub fn read<S: PcmSample>(&mut self, buffer: &mut [S]) -> (r: Result<usize, PhonicError>)
        ensures
            Self::reads::<S>(*old(self), old(buffer)@.len(), *final(self), r),
            final(buffer)@.len() == old(buffer)@.len(),
            r matches Ok(n) ==> n <= old(buffer)@.len(),
    {
        let ghost pre = *self;
        let channels: usize = self.reader.stream_spec().decoded_spec.channels.count() as usize;
        if channels == 0 {
            return Err(PhonicError::BadRequest);
        }
        let width: usize = S::format().size();
        let buf_len: usize = buffer.len();
        assert(buf_len % channels <= buf_len) by (nonlinear_arith)
            requires
                channels > 0,
        ;
        let n_samples: usize = buf_len - buf_len % channels;
        assert(0 < channels * width <= 256) by (nonlinear_arith)
            requires
                0 < channels <= 32,
                0 < width <= 8,
        ;
        let frame_bytes: usize = channels * width;
        let (head, rest) = buffer.split_at_mut(n_samples);
        let bytes = S::as_mut_bytes(head);
        let ghost bytes_pre = bytes@;
        let step = self.reader.read(bytes);
        let ghost bytes_post = bytes@;
        assert(R::reads(pre.reader, bytes_pre, self.reader, bytes_post, step));
        let answer = match step {
            Ok(n) => {
                if n % frame_bytes == 0 {
                    assert(n as nat / (width as nat) <= n_samples) by (nonlinear_arith)
                        requires
                            n <= n_samples * width,
                            width > 0,
                    ;
                    Ok(n / width)
                } else {
                    Err(PhonicError::StreamMismatch)
                }
            },
            Err(e) => Err(e),
        };
        assert(R::reads(pre.reader_of(), bytes_pre, self.reader_of(), bytes_post, step));
        assert(answer == pcm_answer(channels as nat, width as nat, step));
        answer
    }
}

} // verus!
