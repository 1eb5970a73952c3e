//! The capabilities of an encoded stream, one trait each.
//!
//! The spec functions of these traits have defaults, as those of the signal
//! traits have, and for the same reason.

use vstd::prelude::*;
use crate::codec::CodecTag;
use crate::error::PhonicError;
use crate::stream_spec::StreamSpec;

verus! {

/// A source or sink of encoded bytes.
pub trait Stream: Sized {
    /// The type that names the codec.
    type Tag: CodecTag;

    /// The description of this stream.
    open spec fn stream_spec_of(&self) -> StreamSpec<Self::Tag> {
        arbitrary()
    }

    /// The description of this stream. It never changes.
    fn stream_spec(&self) -> (s: &StreamSpec<Self::Tag>)
        ensures
            *s == self.stream_spec_of(),
    ;
}

/// A stream whose operations may hold the calling thread until data is
/// there. Nothing in this crate calls `block` on its own account.
pub trait BlockingStream: Stream {
    /// Waits until the stream is ready.
    fn block(&self);
}

/// A stream that knows where it stands.
pub trait IndexedStream: Stream {
    /// The number of bytes between the start and the current position.
    open spec fn pos_of(&self) -> nat {
        arbitrary()
    }

    /// The current position, in bytes.
    fn pos(&self) -> (p: u64)
        requires
            self.pos_of() <= u64::MAX,
        ensures
            p == self.pos_of(),
    ;
}

/// A stream that ends. One without this capability is taken for unbounded.
pub trait FiniteStream: Stream {
    /// The total number of bytes.
    open spec fn len_of(&self) -> nat {
        arbitrary()
    }

    /// The total length, in bytes.
    fn len(&self) -> (n: u64)
        requires
            self.len_of() <= u64::MAX,
        ensures
            n == self.len_of(),
    ;
}

/// A stream to read bytes from.
pub trait StreamReader: Stream {
    /// What one `read` may do: from the stream `pre` and a buffer that holds
    /// `buf_pre` it may leave `post` and `buf_post`, and return `r`.
    open spec fn reads(
        pre: Self,
        buf_pre: Seq<u8>,
        post: Self,
        buf_post: Seq<u8>,
        r: Result<usize, PhonicError>,
    ) -> bool {
        true
    }

    /// Reads bytes into a prefix of `buf` and returns how many. `Ok(0)` means
    /// that no data is left; fewer bytes than `buf` holds do not.
    fn read(&mut self, buf: &mut [u8]) -> (r: Result<usize, PhonicError>)
        ensures
            Self::reads(*old(self), old(buf)@, *final(self), final(buf)@, r),
            final(self).stream_spec_of() == old(self).stream_spec_of(),
            final(buf)@.len() == old(buf)@.len(),
            r matches Ok(n) ==> n <= old(buf)@.len(),
    ;
}

/// A stream to write bytes to.
pub trait StreamWriter: Stream {
    /// What one `write` of the bytes `buf` may do.
    open spec fn writes(
        pre: Self,
        buf: Seq<u8>,
        post: Self,
        r: Result<usize, PhonicError>,
    ) -> bool {
        true
    }

    /// What one `flush` may do.
    open spec fn flushes(pre: Self, post: Self, r: Result<(), PhonicError>) -> bool {
        true
    }

    /// Writes a prefix of `buf` and returns how many bytes it took.
    fn write(&mut self, buf: &[u8]) -> (r: Result<usize, PhonicError>)
        ensures
            Self::writes(*old(self), buf@, *final(self), r),
            final(self).stream_spec_of() == old(self).stream_spec_of(),
            r matches Ok(n) ==> n <= buf@.len(),
    ;

    /// Hands on everything that was written and is still held back.
    fn flush(&mut self) -> (r: Result<(), PhonicError>)
        ensures
            Self::flushes(*old(self), *final(self), r),
            final(self).stream_spec_of() == old(self).stream_spec_of(),
    ;
}

/// A stream whose position can be moved.
pub trait StreamSeeker: Stream {
    /// What one `seek` by `offset` bytes may do.
    open spec fn seeks(pre: Self, offset: i64, post: Self, r: Result<(), PhonicError>) -> bool {
        true
    }

    /// Moves the position by `offset` bytes, backwards where it is negative.
    fn seek(&mut self, offset: i64) -> (r: Result<(), PhonicError>)
        ensures
            Self::seeks(*old(self), offset, *final(self), r),
            final(self).stream_spec_of() == old(self).stream_spec_of(),
    ;
}

} // verus!
