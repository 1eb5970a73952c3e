//! Several signals, one after the other, as one signal.

use vstd::prelude::*;
use crate::error::PhonicError;
use crate::signal::{FiniteSignal, IndexedSignal, Signal, SignalReader, SignalSeeker, SignalWriter};
use crate::signal_list::{
    lemma_sum_to_grows, shared_spec, sum_to, FiniteSignalList, IndexedSignalList, SignalList,
    SignalReaderList, SignalSeekerList, SignalWriterList,
};
use crate::signal_spec::SignalSpec;

verus! {

/// A list of signals presented as one continuous signal.
///
/// One signal of the list is current; reads and writes go to it, and move on
/// to the next one when it reports zero progress.
pub struct Concat<T> {
    inner: T,
    spec: SignalSpec,
    current_i: usize,
}

/// What a transfer does once one signal of the list has answered.
#[derive(Clone, Copy, Debug, PartialEq, Eq, Structural)]
pub enum Progress {
    /// The current signal made no progress: go on with the next one.
    Advance,
    /// The current signal transferred this many samples: return them.
    Done(usize),
    /// The current signal failed: return its error.
    Failed(PhonicError),
}

/// Decides how a transfer goes on from the answer of the current signal. It
/// moves on exactly when the answer is `Ok(0)`: a count above zero is
/// returned however small it is, and an error is returned as it came.
pub fn progress_of(answer: Result<usize, PhonicError>) -> (p: Progress)
    ensures
        p == match answer {
            Ok(n) => if n == 0 {
                Progress::Advance
            } else {
                Progress::Done(n)
            },
            Err(e) => Progress::Failed(e),
        },
{
    match answer {
        Ok(n) => if n == 0 {
            Progress::Advance
        } else {
            Progress::Done(n)
        },
        Err(e) => Progress::Failed(e),
    }
}

/// What a read of the concatenation does, told by the reads of its signals.
///
/// With no current signal (`cur` is past the last one) nothing changes and
/// the read returns `Ok(0)`. Otherwise the current signal is read once. If
/// it answers `Ok(0)`, the read goes on in the same way with the next
/// signal; any other answer is the result, and the signal stays current.
pub open spec fn concat_reads<T: SignalReaderList>(
    pre: T,
    cur: int,
    buf_pre: Seq<T::Sample>,
    post: T,
    end: int,
    buf_post: Seq<T::Sample>,
    r: Result<usize, PhonicError>,
) -> bool
    decreases pre.count_of() - cur,
{
    if cur < 0 || cur >= pre.count_of() {
        post == pre && end == cur && buf_post == buf_pre && r == Ok::<usize, PhonicError>(0)
    } else {
        exists|mid: T, buf_mid: Seq<T::Sample>, step: Result<usize, PhonicError>|
            {
                &&& #[trigger] T::reads_at(pre, cur, buf_pre, mid, buf_mid, step)
                &&& mid.count_of() == pre.count_of()
                &&& if step == Ok::<usize, PhonicError>(0) {
                    concat_reads(mid, cur + 1, buf_mid, post, end, buf_post, r)
                } else {
                    post == mid && end == cur && buf_post == buf_mid && r == step
                }
            }
    }
}

/// What a write to the concatenation does, told by the writes of its
/// signals: as `concat_reads`, with a write in place of each read. A signal
/// that takes nothing (`Ok(0)`) is left behind for the next one.
pub open spec fn concat_writes<T: SignalWriterList>(
    pre: T,
    cur: int,
    buf: Seq<T::Sample>,
    post: T,
    end: int,
    r: Result<usize, PhonicError>,
) -> bool
    decreases pre.count_of() - cur,
{
    if cur < 0 || cur >= pre.count_of() {
        post == pre && end == cur && r == Ok::<usize, PhonicError>(0)
    } else {
        exists|mid: T, step: Result<usize, PhonicError>|
            {
                &&& #[trigger] T::writes_at(pre, cur, buf, mid, step)
                &&& mid.count_of() == pre.count_of()
                &&& if step == Ok::<usize, PhonicError>(0) {
                    concat_writes(mid, cur + 1, buf, post, end, r)
                } else {
                    post == mid && end == cur && r == step
                }
            }
    }
}

/// What flushing the signals from `from` up to, not including, `until` does:
/// each is flushed in turn, and the first error ends the flush and is its
/// result.
pub open spec fn concat_flushes<T: SignalWriterList>(
    pre: T,
    from: int,
    until: int,
    post: T,
    r: Result<(), PhonicError>,
) -> bool
    decreases until - from,
{
    if from < 0 || from >= until {
        post == pre && r == Ok::<(), PhonicError>(())
    } else {
        exists|mid: T, step: Result<(), PhonicError>|
            {
                &&& #[trigger] T::flushes_at(pre, from, mid, step)
                &&& mid.count_of() == pre.count_of()
                &&& if step is Ok {
                    concat_flushes(mid, from + 1, until, post, r)
                } else {
                    post == mid && r == step
                }
            }
    }
}

/// The positions of the signals of a list, by index.
pub open spec fn positions<T: IndexedSignalList>(list: T) -> spec_fn(int) -> nat {
    |i: int| list.pos_at(i)
}

/// The lengths of the signals of a list, by index.
pub open spec fn lengths<T: FiniteSignalList>(list: T) -> spec_fn(int) -> nat {
    |i: int| list.len_at(i)
}

/// The number of signals that a transfer has reached: the current one and
/// all before it.
pub open spec fn reached(current: nat, count: nat) -> nat {
    if current < count {
        current + 1
    } else {
        count
    }
}

impl<T> Concat<T> {
    /// The list of signals.
    pub closed spec fn inner_of(self) -> T {
        self.inner
    }

    /// The position in the list of the current signal; the number of signals
    /// once the list is exhausted.
    pub closed spec fn current_of(self) -> nat {
        self.current_i as nat
    }

    /// The description captured when the concatenation was made.
    pub closed spec fn captured_spec(self) -> SignalSpec {
        self.spec
    }
}

impl<T: SignalList> Concat<T> {
    /// Joins the signals of `inner`. Fails as `inner.spec()` does: where the
    /// list is empty, or its signals do not share one description.
    pub fn new(inner: T) -> (r: Result<Self, PhonicError>)
        ensures
            match shared_spec(|i: int| inner.spec_at(i), inner.count_of()) {
                Ok(spec) => r matches Ok(c) && c.inner_of() == inner && c.current_of() == 0
                    && c.captured_spec() == spec,
                Err(e) => r matches Err(f) && f == e,
            },
    {
        match inner.spec() {
            Ok(spec) => Ok(Concat { current_i: 0, spec, inner }),
            Err(e) => Err(e),
        }
    }

    /// The list of signals.
    pub fn as_inner(&self) -> (inner: &T)
        ensures
            *inner == self.inner_of(),
    {
        &self.inner
    }

    /// Gives the list of signals back.
    pub fn into_inner(self) -> (inner: T)
        ensures
            inner == self.inner_of(),
    {
        self.inner
    }
}

impl<T: SignalList> Signal for Concat<T> {
    type Sample = T::Sample;

    open spec fn spec_of(&self) -> SignalSpec {
        self.captured_spec()
    }

    fn spec(&self) -> (s: &SignalSpec) {
        &self.spec
    }
}

impl<T: SignalReaderList> SignalReader for Concat<T> {
    open spec fn reads(
        pre: Self,
        buf_pre: Seq<Self::Sample>,
        post: Self,
        buf_post: Seq<Self::Sample>,
        r: Result<usize, PhonicError>,
    ) -> bool {
        &&& concat_reads(
            pre.inner_of(),
            pre.current_of() as int,
            buf_pre,
            post.inner_of(),
            post.current_of() as int,
            buf_post,
            r,
        )
        &&& post.captured_spec() == pre.captured_spec()
    }

    fn read(&mut self, buf: &mut [Self::Sample]) -> (r: Result<usize, PhonicError>) {
        let ghost pre = *self;
        let ghost buf_pre = buf@;
        let mut result: Option<Result<usize, PhonicError>> = None;
        while result.is_none() && self.current_i < self.inner.count()
            invariant
                self.spec == pre.spec,
                buf@.len() == buf_pre.len(),
                result matches Some(r) ==> {
                    &&& concat_reads(
                        pre.inner,
                        pre.current_i as int,
                        buf_pre,
                        self.inner,
                        self.current_i as int,
                        buf@,
                        r,
                    )
                    &&& r matches Ok(n) ==> n <= buf_pre.len()
                },
                result is None ==> forall|
                    post: T,
                    end: int,
                    buf_post: Seq<T::Sample>,
                    r: Result<usize, PhonicError>,
                |
                    concat_reads(self.inner, self.current_i as int, buf@, post, end, buf_post, r)
                        ==> concat_reads(
                        pre.inner,
                        pre.current_i as int,
                        buf_pre,
                        post,
                        end,
                        buf_post,
                        r,
                    ),
            decreases
                    (if result is None {
                        1 + self.inner.count_of() - self.current_i
                    } else {
                        0
                    }),
        {
            let ghost before = self.inner;
            let ghost buf_before = buf@;
            let ghost cur = self.current_i as int;
            let answer = self.inner.read(self.current_i, buf);
            assert(T::reads_at(before, cur, buf_before, self.inner, buf@, answer));
            match progress_of(answer) {
                Progress::Advance => {
                    self.current_i = self.current_i + 1;
                    assert forall|
                        post: T,
                        end: int,
                        buf_post: Seq<T::Sample>,
                        r: Result<usize, PhonicError>,
                    |
                        concat_reads(
                            self.inner,
                            self.current_i as int,
                            buf@,
                            post,
                            end,
                            buf_post,
                            r,
                        ) implies concat_reads(before, cur, buf_before, post, end, buf_post, r) by {
                        assert(T::reads_at(before, cur, buf_before, self.inner, buf@, answer));
                    }
                },
                Progress::Done(n) => {
                    assert(concat_reads(before, cur, buf_before, self.inner, cur, buf@, answer));
                    result = Some(Ok(n));
                },
                Progress::Failed(e) => {
                    assert(concat_reads(before, cur, buf_before, self.inner, cur, buf@, answer));
                    result = Some(Err(e));
                },
            }
        }
        match result {
            Some(r) => r,
            None => Ok(0),
        }
    }
}

impl<T: IndexedSignalList> IndexedSignal for Concat<T> {
    /// The frames consumed so far: the sum of the positions of the current
    /// signal and of all before it.
    open spec fn pos_of(&self) -> nat {
        sum_to(
            positions(self.inner_of()),
            reached(self.current_of(), self.inner_of().count_of()),
        )
    }

    fn pos(&self) -> (p: u64) {
        let count: usize = self.inner.count();
        let until: usize = if self.current_i < count {
            self.current_i + 1
        } else {
            count
        };
        let mut sum: u64 = 0;
        let mut i: usize = 0;
        while i < until
            invariant
                i <= until <= self.inner.count_of(),
                sum == sum_to(positions(self.inner), i as nat),
                sum_to(positions(self.inner), until as nat) <= u64::MAX,
            decreases until - i,
        {
            proof {
                lemma_sum_to_grows(positions(self.inner), i as nat, until as nat);
            }
            let p: u64 = self.inner.pos(i);
            sum = sum + p;
            i = i + 1;
        }
        sum
    }
}

impl<T: FiniteSignalList> FiniteSignal for Concat<T> {
    /// The sum of the lengths of all signals.
    open spec fn len_of(&self) -> nat {
        sum_to(lengths(self.inner_of()), self.inner_of().count_of())
    }

    fn len(&self) -> (n: u64) {
        let count: usize = self.inner.count();
        let mut sum: u64 = 0;
        let mut i: usize = 0;
        while i < count
            invariant
                i <= count == self.inner.count_of(),
                sum == sum_to(lengths(self.inner), i as nat),
                sum_to(lengths(self.inner), count as nat) <= u64::MAX,
            decreases count - i,
        {
            proof {
                lemma_sum_to_grows(lengths(self.inner), i as nat, count as nat);
            }
            let n: u64 = self.inner.len(i);
            sum = sum + n;
            i = i + 1;
        }
        sum
    }
}

impl<T: SignalWriterList> SignalWriter for Concat<T> {
    open spec fn writes(
        pre: Self,
        buf: Seq<Self::Sample>,
        post: Self,
        r: Result<usize, PhonicError>,
    ) -> bool {
        &&& concat_writes(
            pre.inner_of(),
            pre.current_of() as int,
            buf,
            post.inner_of(),
            post.current_of() as int,
            r,
        )
        &&& post.captured_spec() == pre.captured_spec()
    }

    /// Every signal that a transfer has reached is flushed, the first one
    /// first. The current signal stays current.
    open spec fn flushes(pre: Self, post: Self, r: Result<(), PhonicError>) -> bool {
        &&& concat_flushes(
            pre.inner_of(),
            0,
            reached(pre.current_of(), pre.inner_of().count_of()) as int,
            post.inner_of(),
            r,
        )
        &&& post.current_of() == pre.current_of()
        &&& post.captured_spec() == pre.captured_spec()
    }

    /// Writes to the current signal. A signal that takes nothing is left
    /// behind for the next one; the first count above zero is returned, and
    /// `Ok(0)` once no signal is left.
    fn write(&mut self, buf: &[Self::Sample]) -> (r: Result<usize, PhonicError>) {
        let ghost pre = *self;
        let mut result: Option<Result<usize, PhonicError>> = None;
        while result.is_none() && self.current_i < self.inner.count()
            invariant
                self.spec == pre.spec,
                result matches Some(r) ==> {
                    &&& concat_writes(
                        pre.inner,
                        pre.current_i as int,
                        buf@,
                        self.inner,
                        self.current_i as int,
                        r,
                    )
                    &&& r matches Ok(n) ==> n <= buf@.len()
                },
                result is None ==> forall|post: T, end: int, r: Result<usize, PhonicError>|
                    concat_writes(self.inner, self.current_i as int, buf@, post, end, r)
                        ==> concat_writes(pre.inner, pre.current_i as int, buf@, post, end, r),
            decreases
                    (if result is None {
                        1 + self.inner.count_of() - self.current_i
                    } else {
                        0
                    }),
        {
            let ghost before = self.inner;
            let ghost cur = self.current_i as int;
            let answer = self.inner.write(self.current_i, buf);
            assert(T::writes_at(before, cur, buf@, self.inner, answer));
            match progress_of(answer) {
                Progress::Advance => {
                    self.current_i = self.current_i + 1;
                    assert forall|post: T, end: int, r: Result<usize, PhonicError>|
                        concat_writes(
                            self.inner,
                            self.current_i as int,
                            buf@,
                            post,
                            end,
                            r,
                        ) implies concat_writes(before, cur, buf@, post, end, r) by {
                        assert(T::writes_at(before, cur, buf@, self.inner, answer));
                    }
                },
                Progress::Done(n) => {
                    assert(concat_writes(before, cur, buf@, self.inner, cur, answer));
                    result = Some(Ok(n));
                },
                Progress::Failed(e) => {
                    assert(concat_writes(before, cur, buf@, self.inner, cur, answer));
                    result = Some(Err(e));
                },
            }
        }
        match result {
            Some(r) => r,
            None => Ok(0),
        }
    }

    fn flush(&mut self) -> (r: Result<(), PhonicError>) {
        let ghost pre = *self;
        let count: usize = self.inner.count();
        let until: usize = if self.current_i < count {
            self.current_i + 1
        } else {
            count
        };
        let mut i: usize = 0;
        let mut failure: Option<PhonicError> = None;
        while failure.is_none() && i < until
            invariant
                self.spec == pre.spec,
                self.current_i == pre.current_i,
                i <= until <= self.inner.count_of(),
                failure matches Some(e) ==> concat_flushes(
                    pre.inner,
                    0,
                    until as int,
                    self.inner,
                    Err(e),
                ),
                failure is None ==> forall|post: T, r: Result<(), PhonicError>|
                    concat_flushes(self.inner, i as int, until as int, post, r) ==> concat_flushes(
                        pre.inner,
                        0,
                        until as int,
                        post,
                        r,
                    ),
            decreases
                    (if failure is None {
                        1 + until - i
                    } else {
                        0
                    }),
        {
            let ghost before = self.inner;
            let answer = self.inner.flush(i);
            assert(T::flushes_at(before, i as int, self.inner, answer));
            match answer {
                Ok(()) => {
                    i = i + 1;
                    assert forall|post: T, r: Result<(), PhonicError>|
                        concat_flushes(
                            self.inner,
                            i as int,
                            until as int,
                            post,
                            r,
                        ) implies concat_flushes(before, i - 1, until as int, post, r) by {
                        assert(T::flushes_at(before, i - 1, self.inner, answer));
                    }
                },
                Err(e) => {
                    assert(concat_flushes(before, i as int, until as int, self.inner, answer));
                    failure = Some(e);
                },
            }
        }
        match failure {
            Some(e) => Err(e),
            None => Ok(()),
        }
    }
}

impl<T: IndexedSignalList + SignalSeekerList> SignalSeeker for Concat<T> {
    /// A seek moves the position of the current signal, and never makes
    /// another signal current. With no current signal it is not supported.
    open spec fn seeks(pre: Self, offset: i64, post: Self, r: Result<(), PhonicError>) -> bool {
        &&& post.current_of() == pre.current_of()
        &&& post.captured_spec() == pre.captured_spec()
        &&& if pre.current_of() < pre.inner_of().count_of() {
            T::seeks_at(pre.inner_of(), pre.current_of() as int, offset, post.inner_of(), r)
        } else {
            post.inner_of() == pre.inner_of() && r == Err::<(), PhonicError>(
                PhonicError::Unsupported,
            )
        }
    }

    fn seek(&mut self, offset: i64) -> (r: Result<(), PhonicError>) {
        if self.current_i < self.inner.count() {
            self.inner.seek(self.current_i, offset)
        } else {
            Err(PhonicError::Unsupported)
        }
    }
}

/// A read of the concatenation never goes back to an earlier signal, and
/// never loses a signal of the list. It returns `Ok(0)` only once no signal
/// is current any more, and after any other answer the signal that gave it
/// is still current: the read moved on from a signal exactly when that
/// signal answered `Ok(0)`.
pub proof fn lemma_concat_reads_ends<T: SignalReaderList>(
    pre: T,
    cur: int,
    buf_pre: Seq<T::Sample>,
    post: T,
    end: int,
    buf_post: Seq<T::Sample>,
    r: Result<usize, PhonicError>,
)
    requires
        0 <= cur,
        concat_reads(pre, cur, buf_pre, post, end, buf_post, r),
    ensures
        cur <= end,
        post.count_of() == pre.count_of(),
        r == Ok::<usize, PhonicError>(0) ==> end >= pre.count_of(),
        r != Ok::<usize, PhonicError>(0) ==> end < pre.count_of(),
    decreases pre.count_of() - cur,
{
    if cur < pre.count_of() {
        let (mid, buf_mid, step) = choose|
            mid: T,
            buf_mid: Seq<T::Sample>,
            step: Result<usize, PhonicError>,
        |
            {
                &&& #[trigger] T::reads_at(pre, cur, buf_pre, mid, buf_mid, step)
                &&& mid.count_of() == pre.count_of()
                &&& if step == Ok::<usize, PhonicError>(0) {
                    concat_reads(mid, cur + 1, buf_mid, post, end, buf_post, r)
                } else {
                    post == mid && end == cur && buf_post == buf_mid && r == step
                }
            };
        if step == Ok::<usize, PhonicError>(0) {
            lemma_concat_reads_ends(mid, cur + 1, buf_mid, post, end, buf_post, r);
        }
    }
}

/// A signal that answers a read with anything but `Ok(0)` ends the read of
/// the concatenation: its answer is the result, and it stays current.
pub proof fn lemma_concat_reads_stays<T: SignalReaderList>(
    pre: T,
    cur: int,
    buf_pre: Seq<T::Sample>,
    post: T,
    buf_post: Seq<T::Sample>,
    step: Result<usize, PhonicError>,
)
    requires
        0 <= cur < pre.count_of(),
        T::reads_at(pre, cur, buf_pre, post, buf_post, step),
        post.count_of() == pre.count_of(),
        step != Ok::<usize, PhonicError>(0),
    ensures
        concat_reads(pre, cur, buf_pre, post, cur, buf_post, step),
{
}

/// A signal that answers a read with `Ok(0)` is left behind: the read of the
/// concatenation is whatever the read from the next signal on is.
pub proof fn lemma_concat_reads_advances<T: SignalReaderList>(
    pre: T,
    cur: int,
    buf_pre: Seq<T::Sample>,
    mid: T,
    buf_mid: Seq<T::Sample>,
    post: T,
    end: int,
    buf_post: Seq<T::Sample>,
    r: Result<usize, PhonicError>,
)
    requires
        0 <= cur < pre.count_of(),
        T::reads_at(pre, cur, buf_pre, mid, buf_mid, Ok(0)),
        mid.count_of() == pre.count_of(),
        concat_reads(mid, cur + 1, buf_mid, post, end, buf_post, r),
    ensures
        concat_reads(pre, cur, buf_pre, post, end, buf_post, r),
{
}

/// A write to the concatenation never goes back to an earlier signal. It
/// returns `Ok(0)` only once no signal is current any more, and after any
/// other answer the signal that gave it is still current.
pub proof fn lemma_concat_writes_ends<T: SignalWriterList>(
    pre: T,
    cur: int,
    buf: Seq<T::Sample>,
    post: T,
    end: int,
    r: Result<usize, PhonicError>,
)
    requires
        0 <= cur,
        concat_writes(pre, cur, buf, post, end, r),
    ensures
        cur <= end,
        post.count_of() == pre.count_of(),
        r == Ok::<usize, PhonicError>(0) ==> end >= pre.count_of(),
        r != Ok::<usize, PhonicError>(0) ==> end < pre.count_of(),
    decreases pre.count_of() - cur,
{
    if cur < pre.count_of() {
        let (mid, step) = choose|mid: T, step: Result<usize, PhonicError>|
            {
                &&& #[trigger] T::writes_at(pre, cur, buf, mid, step)
                &&& mid.count_of() == pre.count_of()
                &&& if step == Ok::<usize, PhonicError>(0) {
                    concat_writes(mid, cur + 1, buf, post, end, r)
                } else {
                    post == mid && end == cur && r == step
                }
            };
        if step == Ok::<usize, PhonicError>(0) {
            lemma_concat_writes_ends(mid, cur + 1, buf, post, end, r);
        }
    }
}

} // verus!
