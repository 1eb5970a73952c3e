//! A decorator that reports every read, write and seek of a signal.

use vstd::prelude::*;
use crate::error::PhonicError;
use crate::signal::{FiniteSignal, IndexedSignal, Signal, SignalReader, SignalSeeker, SignalWriter};
use crate::signal_spec::SignalSpec;

verus! {

/// What happened to an observed signal.
pub enum SignalEvent<'b, T: Signal> {
    /// These samples were read.
    Read(&'b [T::Sample]),
    /// These samples were written.
    Write(&'b [T::Sample]),
    /// The position moved by this many frames.
    Seek(i64),
}

/// What an `Observer` reports to.
pub trait Callback<T: Signal> {
    /// Called after a read, with the samples that were read.
    fn on_read(&self, inner: &T, buf: &[T::Sample]);

    /// Called after a write, with the samples that were taken.
    fn on_write(&self, inner: &T, buf: &[T::Sample]);

    /// Called after a seek, with its offset.
    fn on_seek(&self, inner: &T, offset: i64);
}

/// A closure that is called with every event.
pub struct OnEvent<T: Signal, F: for<'s, 'b> Fn(&'s T, SignalEvent<'b, T>)> {
    callback: F,
    signal: core::marker::PhantomData<T>,
}

/// A closure that is called after reads only.
pub struct OnRead<T: Signal, F: for<'s, 'b> Fn(&'s T, &'b [T::Sample])> {
    callback: F,
    signal: core::marker::PhantomData<T>,
}

/// A closure that is called after writes only.
pub struct OnWrite<T: Signal, F: for<'s, 'b> Fn(&'s T, &'b [T::Sample])> {
    callback: F,
    signal: core::marker::PhantomData<T>,
}

/// A closure that is called after seeks only.
pub struct OnSeek<T: Signal, F: for<'s> Fn(&'s T, i64)> {
    callback: F,
    signal: core::marker::PhantomData<T>,
}

impl<T: Signal, F: for<'s, 'b> Fn(&'s T, SignalEvent<'b, T>)> OnEvent<T, F> {
    #[verifier::type_invariant]
    spec fn total(self) -> bool {
        forall|inner: &T, event: SignalEvent<T>| call_requires(self.callback, (inner, event))
    }

    /// The closure that is called.
    pub closed spec fn closure(self) -> F {
        self.callback
    }
}

impl<T: Signal, F: for<'s, 'b> Fn(&'s T, &'b [T::Sample])> OnRead<T, F> {
    #[verifier::type_invariant]
    spec fn total(self) -> bool {
        forall|inner: &T, buf: &[T::Sample]| call_requires(self.callback, (inner, buf))
    }

    /// The closure that is called.
    pub closed spec fn closure(self) -> F {
        self.callback
    }
}

impl<T: Signal, F: for<'s, 'b> Fn(&'s T, &'b [T::Sample])> OnWrite<T, F> {
    #[verifier::type_invariant]
    spec fn total(self) -> bool {
        forall|inner: &T, buf: &[T::Sample]| call_requires(self.callback, (inner, buf))
    }

    /// The closure that is called.
    pub closed spec fn closure(self) -> F {
        self.callback
    }
}

impl<T: Signal, F: for<'s> Fn(&'s T, i64)> OnSeek<T, F> {
    #[verifier::type_invariant]
    spec fn total(self) -> bool {
        forall|inner: &T, offset: i64| call_requires(self.callback, (inner, offset))
    }

    /// The closure that is called.
    pub closed spec fn closure(self) -> F {
        self.callback
    }
}

impl<T: Signal, F: for<'s, 'b> Fn(&'s T, SignalEvent<'b, T>)> Callback<T> for OnEvent<T, F> {
    fn on_read(&self, inner: &T, buf: &[T::Sample]) {
        proof {
            use_type_invariant(self);
        }
        (self.callback)(inner, SignalEvent::Read(buf))
    }

    fn on_write(&self, inner: &T, buf: &[T::Sample]) {
        proof {
            use_type_invariant(self);
        }
        (self.callback)(inner, SignalEvent::Write(buf))
    }

    fn on_seek(&self, inner: &T, offset: i64) {
        proof {
            use_type_invariant(self);
        }
        (self.callback)(inner, SignalEvent::Seek(offset))
    }
}

impl<T: Signal, F: for<'s, 'b> Fn(&'s T, &'b [T::Sample])> Callback<T> for OnRead<T, F> {
    fn on_read(&self, inner: &T, buf: &[T::Sample]) {
        proof {
            use_type_invariant(self);
        }
        (self.callback)(inner, buf)
    }

    fn on_write(&self, inner: &T, buf: &[T::Sample]) {
    }

    fn on_seek(&self, inner: &T, offset: i64) {
    }
}

impl<T: Signal, F: for<'s, 'b> Fn(&'s T, &'b [T::Sample])> Callback<T> for OnWrite<T, F> {
    fn on_read(&self, inner: &T, buf: &[T::Sample]) {
    }

    fn on_write(&self, inner: &T, buf: &[T::Sample]) {
        proof {
            use_type_invariant(self);
        }
        (self.callback)(inner, buf)
    }

    fn on_seek(&self, inner: &T, offset: i64) {
    }
}

impl<T: Signal, F: for<'s> Fn(&'s T, i64)> Callback<T> for OnSeek<T, F> {
    fn on_read(&self, inner: &T, buf: &[T::Sample]) {
    }

    fn on_write(&self, inner: &T, buf: &[T::Sample]) {
    }

    fn on_seek(&self, inner: &T, offset: i64) {
        proof {
            use_type_invariant(self);
        }
        (self.callback)(inner, offset)
    }
}

/// A signal that behaves as the one it wraps and reports what is done to it.
///
/// The callback is called after the operation on the wrapped signal has
/// succeeded, with the samples that were transferred and no others. It sees
/// the wrapped signal by shared reference only, so nothing it does changes
/// the signal or the result.
pub struct Observer<T: Signal, C: Callback<T>> {
    inner: T,
    callback: C,
}

impl<T: Signal, C: Callback<T>> Observer<T, C> {
    /// The wrapped signal.
    pub closed spec fn inner_of(self) -> T {
        self.inner
    }

    /// The callback.
    pub closed spec fn callback_of(self) -> C {
        self.callback
    }

    /// Observes `inner` with a callback of any kind.
    pub fn with_callback(inner: T, callback: C) -> (o: Self)
        ensures
            o.inner_of() == inner,
            o.callback_of() == callback,
    {
        Observer { inner, callback }
    }

    /// The wrapped signal.
    pub fn as_inner(&self) -> (inner: &T)
        ensures
            *inner == self.inner_of(),
    {
        &self.inner
    }

    /// Gives the wrapped signal back.
    pub fn into_inner(self) -> (inner: T)
        ensures
            inner == self.inner_of(),
    {
        self.inner
    }
}

impl<T: Signal, F: for<'s, 'b> Fn(&'s T, SignalEvent<'b, T>)> Observer<T, OnEvent<T, F>> {
    /// Observes every read, write and seek of `inner`. The callback must be
    /// callable with any signal and any event.
    pub fn new(inner: T, callback: F) -> (o: Self)
        requires
            forall|inner: &T, event: SignalEvent<T>| call_requires(callback, (inner, event)),
        ensures
            o.inner_of() == inner,
            o.callback_of().closure() == callback,
    {
        Observer { inner, callback: OnEvent { callback, signal: core::marker::PhantomData } }
    }
}

impl<T: Signal, F: for<'s, 'b> Fn(&'s T, &'b [T::Sample])> Observer<T, OnRead<T, F>> {
    /// Observes the reads of `inner`. The callback must be callable with any
    /// signal and any samples.
    pub fn on_read(inner: T, callback: F) -> (o: Self)
        requires
            forall|inner: &T, buf: &[T::Sample]| call_requires(callback, (inner, buf)),
        ensures
            o.inner_of() == inner,
            o.callback_of().closure() == callback,
    {
        Observer { inner, callback: OnRead { callback, signal: core::marker::PhantomData } }
    }
}

impl<T: Signal, F: for<'s, 'b> Fn(&'s T, &'b [T::Sample])> Observer<T, OnWrite<T, F>> {
    /// Observes the writes to `inner`. The callback must be callable with any
    /// signal and any samples.
    pub fn on_write(inner: T, callback: F) -> (o: Self)
        requires
            forall|inner: &T, buf: &[T::Sample]| call_requires(callback, (inner, buf)),
        ensures
            o.inner_of() == inner,
            o.callback_of().closure() == callback,
    {
        Observer { inner, callback: OnWrite { callback, signal: core::marker::PhantomData } }
    }
}

impl<T: Signal, F: for<'s> Fn(&'s T, i64)> Observer<T, OnSeek<T, F>> {
    /// Observes the seeks of `inner`. The callback must be callable with any
    /// signal and any offset.
    pub fn on_seek(inner: T, callback: F) -> (o: Self)
        requires
            forall|inner: &T, offset: i64| call_requires(callback, (inner, offset)),
        ensures
            o.inner_of() == inner,
            o.callback_of().closure() == callback,
    {
        Observer { inner, callback: OnSeek { callback, signal: core::marker::PhantomData } }
    }
}

impl<T: Signal, C: Callback<T>> Signal for Observer<T, C> {
    type Sample = T::Sample;

    open spec fn spec_of(&self) -> SignalSpec {
        self.inner_of().spec_of()
    }

    fn spec(&self) -> (s: &SignalSpec) {
        self.inner.spec()
    }
}

impl<T: IndexedSignal, C: Callback<T>> IndexedSignal for Observer<T, C> {
    open spec fn pos_of(&self) -> nat {
        self.inner_of().pos_of()
    }

    fn pos(&self) -> (p: u64) {
        self.inner.pos()
    }
}

impl<T: FiniteSignal, C: Callback<T>> FiniteSignal for Observer<T, C> {
    open spec fn len_of(&self) -> nat {
        self.inner_of().len_of()
    }

    fn len(&self) -> (n: u64) {
        self.inner.len()
    }
}

impl<T: SignalReader, C: Callback<T>> SignalReader for Observer<T, C> {
    /// A read of the observer is a read of the wrapped signal: it leaves the
    /// signal and the buffer as that read does, and returns what it returns.
    open spec fn reads(
        pre: Self,
        buf_pre: Seq<Self::Sample>,
        post: Self,
        buf_post: Seq<Self::Sample>,
        r: Result<usize, PhonicError>,
    ) -> bool {
        &&& T::reads(pre.inner_of(), buf_pre, post.inner_of(), buf_post, r)
        &&& post.callback_of() == pre.callback_of()
    }

    fn read(&mut self, buf: &mut [Self::Sample]) -> (r: Result<usize, PhonicError>) {
        match self.inner.read(buf) {
            Ok(n) => {
                self.callback.on_read(&self.inner, vstd::slice::slice_subrange(buf, 0, n));
                Ok(n)
            },
            Err(e) => Err(e),
        }
    }
}

impl<T: SignalWriter, C: Callback<T>> SignalWriter for Observer<T, C> {
    /// A write to the observer is a write to the wrapped signal.
    open spec fn writes(
        pre: Self,
        buf: Seq<Self::Sample>,
        post: Self,
        r: Result<usize, PhonicError>,
    ) -> bool {
        &&& T::writes(pre.inner_of(), buf, post.inner_of(), r)
        &&& post.callback_of() == pre.callback_of()
    }

    /// A flush of the observer is a flush of the wrapped signal.
    open spec fn flushes(pre: Self, post: Self, r: Result<(), PhonicError>) -> bool {
        &&& T::flushes(pre.inner_of(), post.inner_of(), r)
        &&& post.callback_of() == pre.callback_of()
    }

    fn write(&mut self, buf: &[Self::Sample]) -> (r: Result<usize, PhonicError>) {
        match self.inner.write(buf) {
            Ok(n) => {
                self.callback.on_write(&self.inner, vstd::slice::slice_subrange(buf, 0, n));
                Ok(n)
            },
            Err(e) => Err(e),
        }
    }

    fn flush(&mut self) -> (r: Result<(), PhonicError>) {
        self.inner.flush()
    }
}

impl<T: SignalSeeker, C: Callback<T>> SignalSeeker for Observer<T, C> {
    /// A seek of the observer is a seek of the wrapped signal.
    open spec fn seeks(pre: Self, offset: i64, post: Self, r: Result<(), PhonicError>) -> bool {
        &&& T::seeks(pre.inner_of(), offset, post.inner_of(), r)
        &&& post.callback_of() == pre.callback_of()
    }

    fn seek(&mut self, offset: i64) -> (r: Result<(), PhonicError>) {
        let answer = self.inner.seek(offset);
        if answer.is_ok() {
            self.callback.on_seek(&self.inner, offset);
        }
        answer
    }
}

/// Whatever an observer does when it is read, the wrapped signal does when
/// it is read alone: the same change of the signal, the same bytes in the
/// buffer, the same result. The same holds the other way round, for an
/// observer that keeps its callback.
pub proof fn lemma_observed_read_is_read<T: SignalReader, C: Callback<T>>(
    pre: Observer<T, C>,
    buf_pre: Seq<T::Sample>,
    post: Observer<T, C>,
    buf_post: Seq<T::Sample>,
    r: Result<usize, PhonicError>,
)
    ensures
        Observer::<T, C>::reads(pre, buf_pre, post, buf_post, r) ==> T::reads(
            pre.inner_of(),
            buf_pre,
            post.inner_of(),
            buf_post,
            r,
        ),
        T::reads(pre.inner_of(), buf_pre, post.inner_of(), buf_post, r) && post.callback_of()
            == pre.callback_of() ==> Observer::<T, C>::reads(pre, buf_pre, post, buf_post, r),
{
}

/// Whatever an observer does when it is written to or flushed, the wrapped
/// signal does when it is written to or flushed alone, and the other way
/// round.
pub proof fn lemma_observed_write_is_write<T: SignalWriter, C: Callback<T>>(
    pre: Observer<T, C>,
    buf: Seq<T::Sample>,
    post: Observer<T, C>,
    r: Result<usize, PhonicError>,
    flushed: Result<(), PhonicError>,
)
    ensures
        Observer::<T, C>::writes(pre, buf, post, r) ==> T::writes(
            pre.inner_of(),
            buf,
            post.inner_of(),
            r,
        ),
        T::writes(pre.inner_of(), buf, post.inner_of(), r) && post.callback_of()
            == pre.callback_of() ==> Observer::<T, C>::writes(pre, buf, post, r),
        Observer::<T, C>::flushes(pre, post, flushed) ==> T::flushes(
            pre.inner_of(),
            post.inner_of(),
            flushed,
        ),
        T::flushes(pre.inner_of(), post.inner_of(), flushed) && post.callback_of()
            == pre.callback_of() ==> Observer::<T, C>::flushes(pre, post, flushed),
{
}

/// Whatever an observer does when it is repositioned, the wrapped signal
/// does when it is repositioned alone, and the other way round.
pub proof fn lemma_observed_seek_is_seek<T: SignalSeeker, C: Callback<T>>(
    pre: Observer<T, C>,
    offset: i64,
    post: Observer<T, C>,
    r: Result<(), PhonicError>,
)
    ensures
        Observer::<T, C>::seeks(pre, offset, post, r) ==> T::seeks(
            pre.inner_of(),
            offset,
            post.inner_of(),
            r,
        ),
        T::seeks(pre.inner_of(), offset, post.inner_of(), r) && post.callback_of()
            == pre.callback_of() ==> Observer::<T, C>::seeks(pre, offset, post, r),
{
}

} // verus!
