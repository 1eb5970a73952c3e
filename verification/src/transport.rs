//! Plain byte transports: what a container reads from and writes to.
//!
//! The spec functions of these traits have defaults, as those of the signal
//! traits have, and for the same reason.

use vstd::prelude::*;
use crate::error::PhonicError;

verus! {

/// Something to read bytes from, such as a file.
pub trait ByteSource: Sized {
    /// What one `read` may do: from the source `pre` and a buffer that holds
    /// `buf_pre` it may leave `post` and `buf_post`, and return `r`.
    open spec fn reads(
        pre: Self,
        buf_pre: Seq<u8>,
        post: Self,
        buf_post: Seq<u8>,
        r: Result<usize, PhonicError>,
    ) -> bool {
        true
    }

    /// Reads bytes into a prefix of `buf` and returns how many. `Ok(0)` means
    /// that no data is left.
    fn read(&mut self, buf: &mut [u8]) -> (r: Result<usize, PhonicError>)
        ensures
            Self::reads(*old(self), old(buf)@, *final(self), final(buf)@, r),
            final(buf)@.len() == old(buf)@.len(),
            r matches Ok(n) ==> n <= old(buf)@.len(),
    ;
}

/// Something to write bytes to, such as a file.
pub trait ByteSink: Sized {
    /// What one `write` of the bytes `buf` may do.
    open spec fn writes(
        pre: Self,
        buf: Seq<u8>,
        post: Self,
        r: Result<usize, PhonicError>,
    ) -> bool {
        true
    }

    /// What one `flush` may do.
    open spec fn flushes(pre: Self, post: Self, r: Result<(), PhonicError>) -> bool {
        true
    }

    /// Writes a prefix of `buf` and returns how many bytes it took.
    fn write(&mut self, buf: &[u8]) -> (r: Result<usize, PhonicError>)
        ensures
            Self::writes(*old(self), buf@, *final(self), r),
            r matches Ok(n) ==> n <= buf@.len(),
    ;

    /// Hands on everything that was written and is still held back.
    fn flush(&mut self) -> (r: Result<(), PhonicError>)
        ensures
            Self::flushes(*old(self), *final(self), r),
    ;
}

} // verus!
