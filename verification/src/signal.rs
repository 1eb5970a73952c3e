//! The capabilities of a decoded signal, one trait each.
//!
//! Each trait pairs its operations with spec functions that say what an
//! implementation does: a model value such as `pos_of`, or a relation such as
//! `reads` between the state before a call, the state after it and the
//! result. A verified implementation defines them. They have defaults, so
//! that code which is not verified can implement the traits without them:
//! `true` for a relation, which allows every outcome, and an arbitrary value
//! for a model. Nothing that is proved of a generic implementation depends
//! on a default.

use vstd::prelude::*;
use crate::error::PhonicError;
use crate::signal_spec::SignalSpec;

verus! {

/// A source or sink of decoded samples.
pub trait Signal: Sized {
    /// The type of one sample.
    type Sample;

    /// The description of this signal.
    open spec fn spec_of(&self) -> SignalSpec {
        arbitrary()
    }

    /// The description of this signal. It never changes.
    fn spec(&self) -> (s: &SignalSpec)
        ensures
            *s == self.spec_of(),
    ;
}

/// A signal that knows where it stands.
pub trait IndexedSignal: Signal {
    /// The number of frames between the start and the current position.
    open spec fn pos_of(&self) -> nat {
        arbitrary()
    }

    /// The current position, in frames.
    fn pos(&self) -> (p: u64)
        requires
            self.pos_of() <= u64::MAX,
        ensures
            p == self.pos_of(),
    ;
}

/// A signal that ends. One without this capability is taken for unbounded.
pub trait FiniteSignal: Signal {
    /// The total number of frames.
    open spec fn len_of(&self) -> nat {
        arbitrary()
    }

    /// The total length, in frames.
    fn len(&self) -> (n: u64)
        requires
            self.len_of() <= u64::MAX,
        ensures
            n == self.len_of(),
    ;
}

/// A signal to read samples from.
pub trait SignalReader: Signal {
    /// What one `read` may do: from the signal `pre` and a buffer that holds
    /// `buf_pre` it may leave the signal `post` and the buffer `buf_post`, and
    /// return `r`.
    open spec fn reads(
        pre: Self,
        buf_pre: Seq<Self::Sample>,
        post: Self,
        buf_post: Seq<Self::Sample>,
        r: Result<usize, PhonicError>,
    ) -> bool {
        true
    }

    /// Reads samples into a prefix of `buf` and returns how many. `Ok(0)`
    /// means that no data is left; fewer samples than `buf` holds do not.
    fn read(&mut self, buf: &mut [Self::Sample]) -> (r: Result<usize, PhonicError>)
        ensures
            Self::reads(*old(self), old(buf)@, *final(self), final(buf)@, r),
            final(self).spec_of() == old(self).spec_of(),
            final(buf)@.len() == old(buf)@.len(),
            r matches Ok(n) ==> n <= old(buf)@.len(),
    ;
}

/// A signal to write samples to.
pub trait SignalWriter: Signal {
    /// What one `write` of the samples `buf` may do: from the signal `pre` it
    /// may leave `post` and return `r`.
    open spec fn writes(
        pre: Self,
        buf: Seq<Self::Sample>,
        post: Self,
        r: Result<usize, PhonicError>,
    ) -> bool {
        true
    }

    /// What one `flush` may do.
    open spec fn flushes(pre: Self, post: Self, r: Result<(), PhonicError>) -> bool {
        true
    }

    /// Writes a prefix of `buf` and returns how many samples it took. `Ok(0)`
    /// means that the signal takes no more.
    fn write(&mut self, buf: &[Self::Sample]) -> (r: Result<usize, PhonicError>)
        ensures
            Self::writes(*old(self), buf@, *final(self), r),
            final(self).spec_of() == old(self).spec_of(),
            r matches Ok(n) ==> n <= buf@.len(),
    ;

    /// Hands on everything that was written and is still held back.
    fn flush(&mut self) -> (r: Result<(), PhonicError>)
        ensures
            Self::flushes(*old(self), *final(self), r),
            final(self).spec_of() == old(self).spec_of(),
    ;
}

/// A signal whose position can be moved.
pub trait SignalSeeker: Signal {
    /// What one `seek` by `offset` frames may do.
    open spec fn seeks(pre: Self, offset: i64, post: Self, r: Result<(), PhonicError>) -> bool {
        true
    }

    /// Moves the position by `offset` frames, backwards where it is negative.
    fn seek(&mut self, offset: i64) -> (r: Result<(), PhonicError>)
        ensures
            Self::seeks(*old(self), offset, *final(self), r),
            final(self).spec_of() == old(self).spec_of(),
    ;
}

} // verus!
