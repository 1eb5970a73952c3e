//! The WAVE container: its names, and the framing of its data.

use vstd::prelude::*;
use crate::codec::{SyphonCodec, Tag};
use crate::error::PhonicError;
use crate::format::{FormatDataBuilder, FormatIdentifiers, SyphonFormat};
use crate::stream_spec::StreamSpecBuilder;
use crate::transport::{ByteSink, ByteSource};

verus! {

/// The names and markers of WAVE.
pub fn wave_identifiers() -> (ids: FormatIdentifiers)
    ensures
        ids.file_extensions@ == SyphonFormat::Wave.file_extensions(),
        ids.mime_types@ == SyphonFormat::Wave.mime_types(),
        ids.markers@.len() == 2,
        ids.markers@[0]@ == SyphonFormat::Wave.markers()[0],
        ids.markers@[1]@ == SyphonFormat::Wave.markers()[1],
{
    FormatIdentifiers {
        file_extensions: &["wav", "wave"],
        mime_types: &["audio/vnd.wave", "audio/x-wav", "audio/wav", "audio/wave"],
        markers: &[&[0x52, 0x49, 0x46, 0x46], &[0x57, 0x41, 0x56, 0x45]],
    }
}

/// WAVE holds exactly one stream, and that stream is PCM.
pub open spec fn wave_holds(tracks: Seq<StreamSpecBuilder<SyphonCodec>>) -> bool {
    tracks.len() == 1 && (tracks[0].codec is None || tracks[0].codec == Some(SyphonCodec::Pcm))
}

/// Fills in what WAVE itself says of its data: the codec of its one stream
/// is PCM. Fails with `Unsupported`, and changes nothing, where the data
/// does not hold exactly one stream or that stream has another codec.
pub fn fill_wave_data(data: &mut FormatDataBuilder) -> (r: Result<(), PhonicError>)
    ensures
        final(data).format == old(data).format,
        wave_holds(old(data).tracks@) ==> r is Ok && final(data).tracks@ == seq![
            (StreamSpecBuilder { codec: Some(SyphonCodec::Pcm), ..old(data).tracks@[0] }),
        ],
        !wave_holds(old(data).tracks@) ==> r == Err::<(), PhonicError>(PhonicError::Unsupported)
            && final(data).tracks@ == old(data).tracks@,
{
    if data.tracks.len() != 1 {
        return Err(PhonicError::Unsupported);
    }
    let track: StreamSpecBuilder<SyphonCodec> = data.tracks[0];
    match track.codec {
        Some(codec) => {
            if !codec.same(&SyphonCodec::Pcm) {
                return Err(PhonicError::Unsupported);
            }
        },
        None => {},
    }
    data.tracks.set(0, track.with_codec(SyphonCodec::Pcm));
    assert(data.tracks@ =~= seq![
        (StreamSpecBuilder { codec: Some(SyphonCodec::Pcm), ..old(data).tracks@[0] }),
    ]);
    Ok(())
}

/// The `fmt ` chunk of a WAVE file, as far as framing needs it.
#[derive(Clone, Copy, Debug, PartialEq, Eq, Structural)]
pub struct WaveFmt {
    /// The size in bytes of one block: one sample for every channel.
    pub block_align: u16,
}

/// The `data` chunk of a WAVE file, without the data.
#[derive(Clone, Copy, Debug, PartialEq, Eq, Structural)]
pub struct WaveData {
    /// The number of bytes of audio data.
    pub byte_len: u32,
}

/// The header of a WAVE file.
#[derive(Clone, Copy, Debug, PartialEq, Eq, Structural)]
pub struct WaveHeader {
    /// The `fmt ` chunk.
    pub fmt: WaveFmt,
    /// The `data` chunk.
    pub data: WaveData,
}

/// The audio data of a WAVE file: a transport that stands at the first byte
/// of the data, the header that describes it, and the number of bytes that
/// have passed.
///
/// Transfers never go beyond the data, and always cover whole blocks.
pub struct Wave<T> {
    header: WaveHeader,
    inner: T,
    i: usize,
}

/// How many bytes of a buffer of `buf_len` bytes a transfer hands to the
/// transport, `passed` bytes into data of `byte_len` bytes in blocks of
/// `block_align`: as many as are left of the data, cut down to whole blocks.
pub open spec fn wave_request(byte_len: u32, block_align: u16, passed: usize, buf_len: nat) -> nat
    recommends
        block_align > 0,
{
    let left: nat = if passed <= byte_len {
        (byte_len - passed) as nat
    } else {
        0
    };
    let fit: nat = if buf_len <= left {
        buf_len
    } else {
        left
    };
    (fit - fit % (block_align as nat)) as nat
}

/// What a transfer returns once the transport has answered: its count where
/// it covers whole blocks, `StreamMismatch` where it ends inside a block,
/// and an error as it came.
pub open spec fn wave_answer(block_align: u16, step: Result<usize, PhonicError>) -> Result<
    usize,
    PhonicError,
> {
    match step {
        Ok(n) => if n % (block_align as usize) == 0 {
            Ok(n)
        } else {
            Err(PhonicError::StreamMismatch)
        },
        Err(e) => Err(e),
    }
}

impl<T> Wave<T> {
    /// The header.
    pub closed spec fn header_of(self) -> WaveHeader {
        self.header
    }

    /// The transport.
    pub closed spec fn inner_of(self) -> T {
        self.inner
    }

    /// The number of bytes of data that have passed.
    pub closed spec fn passed(self) -> usize {
        self.i
    }

    /// The data of a file that is read: `inner` stands behind the header, and
    /// `header` is what was read from it. Fails with `BadRequest` where the
    /// header gives blocks of no bytes.
    pub fn read(inner: T, header: WaveHeader) -> (r: Result<Self, PhonicError>)
        ensures
            header.fmt.block_align > 0 ==> (r matches Ok(w) && w.header_of() == header
                && w.inner_of() == inner && w.passed() == 0),
            header.fmt.block_align == 0 ==> (r matches Err(e) && e == PhonicError::BadRequest),
    {
        if header.fmt.block_align == 0 {
            return Err(PhonicError::BadRequest);
        }
        Ok(Wave { header, inner, i: 0 })
    }

    /// The data of a file that is written: `header` has gone to `inner`, and
    /// the data follows. Fails with `BadRequest` where the header gives blocks
    /// of no bytes.
    pub fn write(inner: T, header: WaveHeader) -> (r: Result<Self, PhonicError>)
        ensures
            header.fmt.block_align > 0 ==> (r matches Ok(w) && w.header_of() == header
                && w.inner_of() == inner && w.passed() == 0),
            header.fmt.block_align == 0 ==> (r matches Err(e) && e == PhonicError::BadRequest),
    {
        if header.fmt.block_align == 0 {
            return Err(PhonicError::BadRequest);
        }
        Ok(Wave { header, inner, i: 0 })
    }

    /// The header.
    pub fn header(&self) -> (h: &WaveHeader)
        ensures
            *h == self.header_of(),
    {
        &self.header
    }

    /// How many bytes of a buffer of `buf_len` bytes the next transfer hands
    /// to the transport.
    fn request(&self, buf_len: usize) -> (len: usize)
        requires
            self.header.fmt.block_align > 0,
        ensures
            len == wave_request(
                self.header.data.byte_len,
                self.header.fmt.block_align,
                self.i,
                buf_len as nat,
            ),
            len <= buf_len,
            self.i + len <= usize::MAX,
    {
        let byte_len: usize = self.header.data.byte_len as usize;
        let left: usize = if self.i <= byte_len {
            byte_len - self.i
        } else {
            0
        };
        let fit: usize = if buf_len <= left {
            buf_len
        } else {
            left
        };
        let align: usize = self.header.fmt.block_align as usize;
        assert(fit % align <= fit) by (nonlinear_arith)
            requires
                align > 0,
        ;
        fit - fit % align
    }
}

impl<T: ByteSource> ByteSource for Wave<T> {
    /// A read hands the transport the start of the buffer, as long as
    /// `wave_request` says, and counts the bytes that came. The rest of the
    /// buffer stays as it was.
    open spec fn reads(
        pre: Self,
        buf_pre: Seq<u8>,
        post: Self,
        buf_post: Seq<u8>,
        r: Result<usize, PhonicError>,
    ) -> bool {
        let header = pre.header_of();
        let len = wave_request(
            header.data.byte_len,
            header.fmt.block_align,
            pre.passed(),
            buf_pre.len(),
        ) as int;
        &&& post.header_of() == header
        &&& if header.fmt.block_align == 0 {
            &&& post == pre
            &&& buf_post == buf_pre
            &&& r == Err::<usize, PhonicError>(PhonicError::BadRequest)
        } else {
            exists|head: Seq<u8>, step: Result<usize, PhonicError>|
                {
                    &&& #[trigger] T::reads(
                        pre.inner_of(),
                        buf_pre.subrange(0, len),
                        post.inner_of(),
                        head,
                        step,
                    )
                    &&& buf_post == head + buf_pre.subrange(len, buf_pre.len() as int)
                    &&& post.passed() == match step {
                        Ok(n) => pre.passed() + n,
                        Err(_) => pre.passed() as int,
                    }
                    &&& r == wave_answer(header.fmt.block_align, step)
                }
        }
    }

    fn read(&mut self, buf: &mut [u8]) -> (r: Result<usize, PhonicError>) {
        if self.header.fmt.block_align == 0 {
            return Err(PhonicError::BadRequest);
        }
        let ghost pre = *self;
        let ghost buf_pre = buf@;
        let align: usize = self.header.fmt.block_align as usize;
        let len: usize = self.request(buf.len());
        let (head, rest) = buf.split_at_mut(len);
        let step = self.inner.read(head);
        let ghost head_post = head@;
        let answer = match step {
            Ok(n) => {
                self.i = self.i + n;
                if n % align == 0 {
                    Ok(n)
                } else {
                    Err(PhonicError::StreamMismatch)
                }
            },
            Err(e) => Err(e),
        };
        assert(T::reads(
            pre.inner_of(),
            buf_pre.subrange(0, len as int),
            self.inner_of(),
            head_post,
            step,
        ));
        assert(answer == wave_answer(pre.header.fmt.block_align, step));
        assert(self.passed() == match step {
            Ok(n) => pre.passed() + n,
            Err(_) => pre.passed() as int,
        });
        assert(buf@ == head_post + buf_pre.subrange(len as int, buf_pre.len() as int));
        answer
    }
}

impl<T: ByteSink> ByteSink for Wave<T> {
    /// A write hands the transport the start of the buffer, as long as
    /// `wave_request` says, and counts the bytes that went.
    open spec fn writes(pre: Self, buf: Seq<u8>, post: Self, r: Result<usize, PhonicError>)
        -> bool {
        let header = pre.header_of();
        let len = wave_request(
            header.data.byte_len,
            header.fmt.block_align,
            pre.passed(),
            buf.len(),
        ) as int;
        &&& post.header_of() == header
        &&& if header.fmt.block_align == 0 {
            post == pre && r == Err::<usize, PhonicError>(PhonicError::BadRequest)
        } else {
            exists|step: Result<usize, PhonicError>|
                {
                    &&& #[trigger] T::writes(
                        pre.inner_of(),
                        buf.subrange(0, len),
                        post.inner_of(),
                        step,
                    )
                    &&& post.passed() == match step {
                        Ok(n) => pre.passed() + n,
                        Err(_) => pre.passed() as int,
                    }
                    &&& r == wave_answer(header.fmt.block_align, step)
                }
        }
    }

    /// A flush is a flush of the transport.
    open spec fn flushes(pre: Self, post: Self, r: Result<(), PhonicError>) -> bool {
        &&& T::flushes(pre.inner_of(), post.inner_of(), r)
        &&& post.header_of() == pre.header_of()
        &&& post.passed() == pre.passed()
    }

    fn write(&mut self, buf: &[u8]) -> (r: Result<usize, PhonicError>) {
        if self.header.fmt.block_align == 0 {
            return Err(PhonicError::BadRequest);
        }
        let ghost pre = *self;
        let align: usize = self.header.fmt.block_align as usize;
        let len: usize = self.request(buf.len());
        let step = self.inner.write(vstd::slice::slice_subrange(buf, 0, len));
        let answer = match step {
            Ok(n) => {
                self.i = self.i + n;
                if n % align == 0 {
                    Ok(n)
                } else {
                    Err(PhonicError::StreamMismatch)
                }
            },
            Err(e) => Err(e),
        };
        assert(T::writes(pre.inner_of(), buf@.subrange(0, len as int), self.inner_of(), step));
        assert(answer == wave_answer(pre.header.fmt.block_align, step));
        assert(self.passed() == match step {
            Ok(n) => pre.passed() + n,
            Err(_) => pre.passed() as int,
        });
        answer
    }

    fn flush(&mut self) -> (r: Result<(), PhonicError>) {
        self.inner.flush()
    }
}

} // verus!
