//! One stream of a format, as a stream of its own.

use vstd::prelude::*;
use crate::error::PhonicError;
use crate::format::{
    BlockingFormat, FiniteFormat, Format, FormatReader, FormatSeeker, FormatTag, FormatWriter,
    IndexedFormat,
};
use crate::stream::{
    BlockingStream, FiniteStream, IndexedStream, Stream, StreamReader, StreamSeeker, StreamWriter,
};
use crate::stream_spec::StreamSpec;

verus! {

/// One stream of a format, picked by its position.
///
/// The description of the stream is taken when the selector is made.
pub struct StreamSelector<F: Format> {
    inner: F,
    spec: StreamSpec<<F::Tag as FormatTag>::Codec>,
    stream: usize,
}

/// What the selector does with the answer of one read of the format.
#[derive(Clone, Copy, Debug, PartialEq, Eq, Structural)]
pub enum Selection {
    /// The read served another stream: its bytes are dropped, read again.
    Skip,
    /// The read served the selected stream with this many bytes.
    Take(usize),
    /// The read failed: return its error.
    Failed(PhonicError),
}

/// Decides what the selector for `stream` does with the answer of one read:
/// it takes the bytes of its own stream, whatever their number, skips every
/// other stream, and hands an error on as it came.
pub fn select(stream: usize, answer: Result<(usize, usize), PhonicError>) -> (s: Selection)
    ensures
        s == match answer {
            Ok((served, n)) => if served == stream {
                Selection::Take(n)
            } else {
                Selection::Skip
            },
            Err(e) => Selection::Failed(e),
        },
{
    match answer {
        Ok((served, n)) => if served == stream {
            Selection::Take(n)
        } else {
            Selection::Skip
        },
        Err(e) => Selection::Failed(e),
    }
}

/// What a read of the selector for `stream` does, told by the reads of the
/// format.
///
/// Where the format has no stream at `stream`, nothing is read and the
/// result is `BadRequest`. Otherwise the format is read once. A failure is
/// the result, and so is the count of a read that served `stream`. After a
/// read that served another stream the selector reads again in the same
/// way; the bytes of that read are not kept: the next read gets the same
/// buffer.
pub open spec fn selector_reads<F: FormatReader>(
    pre: F,
    stream: usize,
    buf_pre: Seq<u8>,
    post: F,
    buf_post: Seq<u8>,
    r: Result<usize, PhonicError>,
) -> bool
    decreases pre.patience(stream),
{
    if stream >= pre.streams_of().len() {
        post == pre && buf_post == buf_pre && r == Err::<usize, PhonicError>(
            PhonicError::BadRequest,
        )
    } else {
        exists|mid: F, buf_mid: Seq<u8>, step: Result<(usize, usize), PhonicError>|
            {
                &&& #[trigger] F::reads(pre, buf_pre, mid, buf_mid, step)
                &&& mid.streams_of() == pre.streams_of()
                &&& match step {
                    Ok((served, n)) => if served == stream {
                        post == mid && buf_post == buf_mid && r == Ok::<usize, PhonicError>(n)
                    } else {
                        &&& mid.patience(stream) < pre.patience(stream)
                        &&& selector_reads(mid, stream, buf_mid, post, buf_post, r)
                    },
                    Err(e) => post == mid && buf_post == buf_mid && r == Err::<
                        usize,
                        PhonicError,
                    >(e),
                }
            }
    }
}

impl<F: Format> StreamSelector<F> {
    /// The format.
    pub closed spec fn inner_of(self) -> F {
        self.inner
    }

    /// The position of the selected stream.
    pub closed spec fn stream_of(self) -> usize {
        self.stream
    }

    /// The description captured when the selector was made.
    pub closed spec fn captured_spec(self) -> StreamSpec<<F::Tag as FormatTag>::Codec> {
        self.spec
    }

    /// Selects the stream at `stream` of `inner`, which must have one there.
    pub fn new(inner: F, stream: usize) -> (s: Self)
        requires
            stream < inner.streams_of().len(),
        ensures
            s.inner_of() == inner,
            s.stream_of() == stream,
            s.captured_spec() == inner.streams_of()[stream as int],
    {
        let spec = inner.streams()[stream];
        StreamSelector { inner, spec, stream }
    }

    /// Selects the stream at `stream` of `inner`, or gives `inner` back where
    /// it has no such stream.
    pub fn try_new(inner: F, stream: usize) -> (r: Result<Self, F>)
        ensures
            match r {
                Ok(s) => {
                    &&& stream < inner.streams_of().len()
                    &&& s.inner_of() == inner
                    &&& s.stream_of() == stream
                    &&& s.captured_spec() == inner.streams_of()[stream as int]
                },
                Err(given_back) => stream >= inner.streams_of().len() && given_back == inner,
            },
    {
        if stream < inner.streams().len() {
            Ok(StreamSelector::new(inner, stream))
        } else {
            Err(inner)
        }
    }
}

impl<F: Format> Stream for StreamSelector<F> {
    type Tag = <F::Tag as FormatTag>::Codec;

    open spec fn stream_spec_of(&self) -> StreamSpec<Self::Tag> {
        self.captured_spec()
    }

    fn stream_spec(&self) -> (s: &StreamSpec<Self::Tag>) {
        &self.spec
    }
}

impl<F: BlockingFormat> BlockingStream for StreamSelector<F> {
    fn block(&self) {
        self.inner.block()
    }
}

impl<F: IndexedFormat> IndexedStream for StreamSelector<F> {
    open spec fn pos_of(&self) -> nat {
        self.inner_of().stream_pos_of(self.stream_of())
    }

    fn pos(&self) -> (p: u64) {
        self.inner.stream_pos(self.stream)
    }
}

impl<F: FiniteFormat> FiniteStream for StreamSelector<F> {
    open spec fn len_of(&self) -> nat {
        self.inner_of().stream_len_of(self.stream_of())
    }

    fn len(&self) -> (n: u64) {
        self.inner.stream_len(self.stream)
    }
}

impl<F: FormatReader> StreamReader for StreamSelector<F> {
    open spec fn reads(
        pre: Self,
        buf_pre: Seq<u8>,
        post: Self,
        buf_post: Seq<u8>,
        r: Result<usize, PhonicError>,
    ) -> bool {
        &&& selector_reads(
            pre.inner_of(),
            pre.stream_of(),
            buf_pre,
            post.inner_of(),
            buf_post,
            r,
        )
        &&& post.stream_of() == pre.stream_of()
        &&& post.captured_spec() == pre.captured_spec()
    }

    fn read(&mut self, buf: &mut [u8]) -> (r: Result<usize, PhonicError>) {
        if self.stream >= self.inner.streams().len() {
            return Err(PhonicError::BadRequest);
        }
        let ghost pre = *self;
        let ghost buf_pre = buf@;
        let mut result: Option<Result<usize, PhonicError>> = None;
        while result.is_none()
            invariant
                self.spec == pre.spec,
                self.stream == pre.stream,
                self.stream < self.inner.streams_of().len(),
                buf@.len() == buf_pre.len(),
                result matches Some(r) ==> {
                    &&& selector_reads(pre.inner, pre.stream, buf_pre, self.inner, buf@, r)
                    &&& r matches Ok(n) ==> n <= buf_pre.len()
                },
                result is None ==> forall|post: F, buf_post: Seq<u8>, r: Result<usize, PhonicError>|
                    selector_reads(self.inner, self.stream, buf@, post, buf_post, r)
                        ==> selector_reads(pre.inner, pre.stream, buf_pre, post, buf_post, r),
            decreases
                    (if result is None {
                        1 + self.inner.patience(self.stream)
                    } else {
                        0
                    }),
        {
            let ghost before = self.inner;
            let ghost buf_before = buf@;
            let answer = self.inner.read(buf);
            assert(F::reads(before, buf_before, self.inner, buf@, answer));
            match select(self.stream, answer) {
                Selection::Skip => {
                    assert(self.inner.patience(self.stream) < before.patience(self.stream));
                    assert forall|post: F, buf_post: Seq<u8>, r: Result<usize, PhonicError>|
                        selector_reads(
                            self.inner,
                            self.stream,
                            buf@,
                            post,
                            buf_post,
                            r,
                        ) implies selector_reads(
                        before,
                        self.stream,
                        buf_before,
                        post,
                        buf_post,
                        r,
                    ) by {
                        assert(F::reads(before, buf_before, self.inner, buf@, answer));
                    }
                },
                Selection::Take(n) => {
                    assert(selector_reads(
                        before,
                        self.stream,
                        buf_before,
                        self.inner,
                        buf@,
                        Ok(n),
                    ));
                    result = Some(Ok(n));
                },
                Selection::Failed(e) => {
                    assert(selector_reads(
                        before,
                        self.stream,
                        buf_before,
                        self.inner,
                        buf@,
                        Err(e),
                    ));
                    result = Some(Err(e));
                },
            }
        }
        match result {
            Some(r) => r,
            None => vstd::pervasive::unreached(),
        }
    }
}

impl<F: FormatWriter> StreamWriter for StreamSelector<F> {
    /// A write to the selector is a write to its stream of the format.
    open spec fn writes(pre: Self, buf: Seq<u8>, post: Self, r: Result<usize, PhonicError>)
        -> bool {
        &&& F::writes(pre.inner_of(), pre.stream_of(), buf, post.inner_of(), r)
        &&& post.stream_of() == pre.stream_of()
        &&& post.captured_spec() == pre.captured_spec()
    }

    /// A flush of the selector is a flush of the whole format.
    open spec fn flushes(pre: Self, post: Self, r: Result<(), PhonicError>) -> bool {
        &&& F::flushes(pre.inner_of(), post.inner_of(), r)
        &&& post.stream_of() == pre.stream_of()
        &&& post.captured_spec() == pre.captured_spec()
    }

    fn write(&mut self, buf: &[u8]) -> (r: Result<usize, PhonicError>) {
        self.inner.write(self.stream, buf)
    }

    fn flush(&mut self) -> (r: Result<(), PhonicError>) {
        self.inner.flush()
    }
}

impl<F: FormatSeeker> StreamSeeker for StreamSelector<F> {
    /// A seek of the selector is a seek of its stream of the format.
    open spec fn seeks(pre: Self, offset: i64, post: Self, r: Result<(), PhonicError>) -> bool {
        &&& F::seeks(pre.inner_of(), pre.stream_of(), offset, post.inner_of(), r)
        &&& post.stream_of() == pre.stream_of()
        &&& post.captured_spec() == pre.captured_spec()
    }

    fn seek(&mut self, offset: i64) -> (r: Result<(), PhonicError>) {
        self.inner.seek(self.stream, offset)
    }
}

} // verus!
