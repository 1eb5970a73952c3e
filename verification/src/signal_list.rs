//! The capabilities of an ordered collection of signals that share one sample
//! type, each addressed by its position.
//!
//! The spec functions of these traits have defaults, as those of the signal
//! traits have, and for the same reason.

use vstd::prelude::*;
use crate::error::PhonicError;
use crate::signal::{FiniteSignal, IndexedSignal, Signal, SignalReader, SignalSeeker, SignalWriter};
use crate::signal_spec::SignalSpec;

verus! {

/// The one description that all `count` signals share: that of the first,
/// where every other is equal to it. An empty collection has none
/// (`MissingData`), and neither has one whose signals differ
/// (`ParamMismatch`).
pub open spec fn shared_spec(spec_at: spec_fn(int) -> SignalSpec, count: nat) -> Result<
    SignalSpec,
    PhonicError,
> {
    if count == 0 {
        Err(PhonicError::MissingData)
    } else if forall|i: int| 0 <= i < count ==> #[trigger] spec_at(i) == spec_at(0) {
        Ok(spec_at(0))
    } else {
        Err(PhonicError::ParamMismatch)
    }
}

/// The sum of the first `n` values of `f`.
pub open spec fn sum_to(f: spec_fn(int) -> nat, n: nat) -> nat
    decreases n,
{
    if n == 0 {
        0
    } else {
        sum_to(f, (n - 1) as nat) + f(n - 1)
    }
}

/// A sum over fewer values is no larger, and no single value exceeds the sum.
pub proof fn lemma_sum_to_grows(f: spec_fn(int) -> nat, m: nat, n: nat)
    requires
        m <= n,
    ensures
        sum_to(f, m) <= sum_to(f, n),
        m < n ==> sum_to(f, m) + f(m as int) <= sum_to(f, n),
    decreases n,
{
    if m < n {
        lemma_sum_to_grows(f, m, (n - 1) as nat);
    }
}

/// An ordered collection of signals.
pub trait SignalList: Sized {
    /// The type of one sample, the same for every signal.
    type Sample;

    /// The number of signals.
    open spec fn count_of(&self) -> nat {
        arbitrary()
    }

    /// The description of the signal at position `i`.
    open spec fn spec_at(&self, i: int) -> SignalSpec {
        arbitrary()
    }

    /// The number of signals.
    fn count(&self) -> (n: usize)
        ensures
            n == self.count_of(),
    ;

    /// The description that all signals share.
    fn spec(&self) -> (r: Result<SignalSpec, PhonicError>)
        ensures
            r == shared_spec(|i: int| self.spec_at(i), self.count_of()),
    ;
}

/// A collection whose signals know where they stand.
pub trait IndexedSignalList: SignalList {
    /// The position of the signal at `i`, in frames.
    open spec fn pos_at(&self, i: int) -> nat {
        arbitrary()
    }

    /// The position of the signal at `i`, in frames.
    fn pos(&self, i: usize) -> (p: u64)
        requires
            i < self.count_of(),
            self.pos_at(i as int) <= u64::MAX,
        ensures
            p == self.pos_at(i as int),
    ;
}

/// A collection whose signals end.
pub trait FiniteSignalList: SignalList {
    /// The length of the signal at `i`, in frames.
    open spec fn len_at(&self, i: int) -> nat {
        arbitrary()
    }

    /// The length of the signal at `i`, in frames.
    fn len(&self, i: usize) -> (n: u64)
        requires
            i < self.count_of(),
            self.len_at(i as int) <= u64::MAX,
        ensures
            n == self.len_at(i as int),
    ;
}

/// A collection whose signals can be read.
pub trait SignalReaderList: SignalList {
    /// What one `read` of the signal at `i` may do: from the collection `pre`
    /// and a buffer that holds `buf_pre` it may leave `post` and `buf_post`,
    /// and return `r`.
    open spec fn reads_at(
        pre: Self,
        i: int,
        buf_pre: Seq<Self::Sample>,
        post: Self,
        buf_post: Seq<Self::Sample>,
        r: Result<usize, PhonicError>,
    ) -> bool {
        true
    }

    /// Reads from the signal at `i` into a prefix of `buf`.
    fn read(&mut self, i: usize, buf: &mut [Self::Sample]) -> (r: Result<usize, PhonicError>)
        requires
            i < old(self).count_of(),
        ensures
            Self::reads_at(*old(self), i as int, old(buf)@, *final(self), final(buf)@, r),
            final(self).count_of() == old(self).count_of(),
            final(buf)@.len() == old(buf)@.len(),
            r matches Ok(n) ==> n <= old(buf)@.len(),
    ;
}

/// A collection whose signals can be written.
pub trait SignalWriterList: SignalList {
    /// What one `write` of `buf` to the signal at `i` may do.
    open spec fn writes_at(
        pre: Self,
        i: int,
        buf: Seq<Self::Sample>,
        post: Self,
        r: Result<usize, PhonicError>,
    ) -> bool {
        true
    }

    /// What one `flush` of the signal at `i` may do.
    open spec fn flushes_at(pre: Self, i: int, post: Self, r: Result<(), PhonicError>) -> bool {
        true
    }

    /// Writes a prefix of `buf` to the signal at `i`.
    fn write(&mut self, i: usize, buf: &[Self::Sample]) -> (r: Result<usize, PhonicError>)
        requires
            i < old(self).count_of(),
        ensures
            Self::writes_at(*old(self), i as int, buf@, *final(self), r),
            final(self).count_of() == old(self).count_of(),
            r matches Ok(n) ==> n <= buf@.len(),
    ;

    /// Flushes the signal at `i`.
    fn flush(&mut self, i: usize) -> (r: Result<(), PhonicError>)
        requires
            i < old(self).count_of(),
        ensures
            Self::flushes_at(*old(self), i as int, *final(self), r),
            final(self).count_of() == old(self).count_of(),
    ;
}

/// A collection whose signals can be repositioned.
pub trait SignalSeekerList: SignalList {
    /// What one `seek` of the signal at `i` by `offset` frames may do.
    open spec fn seeks_at(pre: Self, i: int, offset: i64, post: Self, r: Result<(), PhonicError>)
        -> bool {
        true
    }

    /// Moves the position of the signal at `i` by `offset` frames.
    fn seek(&mut self, i: usize, offset: i64) -> (r: Result<(), PhonicError>)
        requires
            i < old(self).count_of(),
        ensures
            Self::seeks_at(*old(self), i as int, offset, *final(self), r),
            final(self).count_of() == old(self).count_of(),
    ;
}

impl<S: Signal> SignalList for Vec<S> {
    type Sample = S::Sample;

    open spec fn count_of(&self) -> nat {
        self@.len()
    }

    open spec fn spec_at(&self, i: int) -> SignalSpec {
        self@[i].spec_of()
    }

    fn count(&self) -> (n: usize) {
        self.len()
    }

    fn spec(&self) -> (r: Result<SignalSpec, PhonicError>) {
        if self.len() == 0 {
            return Err(PhonicError::MissingData);
        }
        let first: SignalSpec = *self[0].spec();
        let mut i: usize = 1;
        while i < self.len()
            invariant
                1 <= i <= self@.len(),
                first == self@[0].spec_of(),
                forall|j: int| 0 <= j < i ==> (#[trigger] self@[j]).spec_of() == first,
            decreases self@.len() - i,
        {
            if !self[i].spec().same(&first) {
                proof {
                    let spec_at = |j: int| self.spec_at(j);
                    assert(spec_at(i as int) != spec_at(0));
                }
                return Err(PhonicError::ParamMismatch);
            }
            i = i + 1;
        }
        Ok(first)
    }
}

impl<S: IndexedSignal> IndexedSignalList for Vec<S> {
    open spec fn pos_at(&self, i: int) -> nat {
        self@[i].pos_of()
    }

    fn pos(&self, i: usize) -> (p: u64) {
        self[i].pos()
    }
}

impl<S: FiniteSignal> FiniteSignalList for Vec<S> {
    open spec fn len_at(&self, i: int) -> nat {
        self@[i].len_of()
    }

    fn len(&self, i: usize) -> (n: u64) {
        self[i].len()
    }
}

impl<S: SignalReader> SignalReaderList for Vec<S> {
    open spec fn reads_at(
        pre: Self,
        i: int,
        buf_pre: Seq<Self::Sample>,
        post: Self,
        buf_post: Seq<Self::Sample>,
        r: Result<usize, PhonicError>,
    ) -> bool {
        &&& 0 <= i < pre@.len()
        &&& post@ == pre@.update(i, post@[i])
        &&& S::reads(pre@[i], buf_pre, post@[i], buf_post, r)
    }

    fn read(&mut self, i: usize, buf: &mut [Self::Sample]) -> (r: Result<usize, PhonicError>) {
        self[i].read(buf)
    }
}

impl<S: SignalWriter> SignalWriterList for Vec<S> {
    open spec fn writes_at(
        pre: Self,
        i: int,
        buf: Seq<Self::Sample>,
        post: Self,
        r: Result<usize, PhonicError>,
    ) -> bool {
        &&& 0 <= i < pre@.len()
        &&& post@ == pre@.update(i, post@[i])
        &&& S::writes(pre@[i], buf, post@[i], r)
    }

    open spec fn flushes_at(pre: Self, i: int, post: Self, r: Result<(), PhonicError>) -> bool {
        &&& 0 <= i < pre@.len()
        &&& post@ == pre@.update(i, post@[i])
        &&& S::flushes(pre@[i], post@[i], r)
    }

    fn write(&mut self, i: usize, buf: &[Self::Sample]) -> (r: Result<usize, PhonicError>) {
        self[i].write(buf)
    }

    fn flush(&mut self, i: usize) -> (r: Result<(), PhonicError>) {
        self[i].flush()
    }
}

impl<S: SignalSeeker> SignalSeekerList for Vec<S> {
    open spec fn seeks_at(pre: Self, i: int, offset: i64, post: Self, r: Result<(), PhonicError>)
        -> bool {
        &&& 0 <= i < pre@.len()
        &&& post@ == pre@.update(i, post@[i])
        &&& S::seeks(pre@[i], offset, post@[i], r)
    }

    fn seek(&mut self, i: usize, offset: i64) -> (r: Result<(), PhonicError>) {
        self[i].seek(offset)
    }
}

} // verus!
