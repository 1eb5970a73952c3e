//! Duration units and the conversions between them.
//!
//! A duration is a count of frames, of samples, of encoded bytes or of
//! blocks. Bytes and blocks convert into each other exactly, by the block
//! size of the stream; frames and samples do so by its channel count. A
//! conversion that would lose a remainder or leave the range of the count is
//! not made: the caller has to rule it out, or to ask with the `checked_`
//! form.

use std::ops::{Add, Div, Mul, Sub};
use vstd::prelude::*;
use crate::codec::Tag;
use crate::stream_spec::{StreamParams, StreamSpec};

verus! {

/// A number of frames: one sample for every channel.
#[derive(Clone, Copy, Debug, PartialEq, Eq, PartialOrd, Ord, Hash)]
pub struct NFrames {
    n_frames: u64,
}

impl View for NFrames {
    type V = nat;

    closed spec fn view(&self) -> nat {
        self.n_frames as nat
    }
}

impl NFrames {
    /// The count, as a number.
    pub fn get(self) -> (n: u64)
        ensures
            n == self@,
    {
        self.n_frames
    }

    /// The duration of this unit with the count `n`.
    pub closed spec fn of(n: nat) -> Self {
        NFrames { n_frames: n as u64 }
    }

    /// `of` builds the duration with the given count, where the count fits.
    pub broadcast proof fn lemma_of_count(n: nat)
        requires
            n <= u64::MAX,
        ensures
            (#[trigger] Self::of(n))@ == n,
    {
    }

    /// Two durations of this unit are equal when their counts are.
    pub proof fn lemma_equal_by_count(self, other: Self)
        requires
            self@ == other@,
        ensures
            self == other,
    {
    }

    /// A count of this unit is never above the largest `u64`.
    pub proof fn lemma_count_bound(self)
        ensures
            self@ <= u64::MAX,
    {
    }
}

impl From<u64> for NFrames {
    fn from(n: u64) -> (d: Self)
        ensures
            d@ == n,
    {
        NFrames { n_frames: n }
    }
}

impl vstd::std_specs::convert::FromSpecImpl<u64> for NFrames {
    open spec fn obeys_from_spec() -> bool {
        true
    }

    closed spec fn from_spec(n: u64) -> Self {
        NFrames { n_frames: n }
    }
}

impl Add<NFrames> for NFrames {
    type Output = Self;

    fn add(self, rhs: Self) -> (d: Self)
        ensures
            d@ == self@ + rhs@,
    {
        NFrames { n_frames: self.n_frames + rhs.n_frames }
    }
}

impl vstd::std_specs::ops::AddSpecImpl<NFrames> for NFrames {
    open spec fn obeys_add_spec() -> bool {
        true
    }

    open spec fn add_req(self, rhs: Self) -> bool {
        self@ + rhs@ <= u64::MAX
    }

    closed spec fn add_spec(self, rhs: Self) -> Self {
        NFrames { n_frames: (self.n_frames + rhs.n_frames) as u64 }
    }
}

impl Sub<NFrames> for NFrames {
    type Output = Self;

    fn sub(self, rhs: Self) -> (d: Self)
        ensures
            d@ == self@ - rhs@,
    {
        NFrames { n_frames: self.n_frames - rhs.n_frames }
    }
}

impl vstd::std_specs::ops::SubSpecImpl<NFrames> for NFrames {
    open spec fn obeys_sub_spec() -> bool {
        true
    }

    open spec fn sub_req(self, rhs: Self) -> bool {
        rhs@ <= self@
    }

    closed spec fn sub_spec(self, rhs: Self) -> Self {
        NFrames { n_frames: (self.n_frames - rhs.n_frames) as u64 }
    }
}

impl Mul<u64> for NFrames {
    type Output = Self;

    fn mul(self, rhs: u64) -> (d: Self)
        ensures
            d@ == self@ * rhs,
    {
        NFrames { n_frames: self.n_frames * rhs }
    }
}

impl vstd::std_specs::ops::MulSpecImpl<u64> for NFrames {
    open spec fn obeys_mul_spec() -> bool {
        true
    }

    open spec fn mul_req(self, rhs: u64) -> bool {
        self@ * rhs <= u64::MAX
    }

    closed spec fn mul_spec(self, rhs: u64) -> Self {
        NFrames { n_frames: (self.n_frames * rhs) as u64 }
    }
}

impl Div<NFrames> for NFrames {
    type Output = u64;

    fn div(self, rhs: Self) -> (ratio: u64) {
        self.n_frames / rhs.n_frames
    }
}

impl vstd::std_specs::ops::DivSpecImpl<NFrames> for NFrames {
    open spec fn obeys_div_spec() -> bool {
        true
    }

    open spec fn div_req(self, rhs: Self) -> bool {
        rhs@ > 0
    }

    open spec fn div_spec(self, rhs: Self) -> u64 {
        (self@ / rhs@) as u64
    }
}

impl Div<u64> for NFrames {
    type Output = Self;

    fn div(self, rhs: u64) -> (d: Self)
        ensures
            d@ == self@ / (rhs as nat),
    {
        NFrames { n_frames: self.n_frames / rhs }
    }
}

impl vstd::std_specs::ops::DivSpecImpl<u64> for NFrames {
    open spec fn obeys_div_spec() -> bool {
        true
    }

    open spec fn div_req(self, rhs: u64) -> bool {
        rhs > 0
    }

    closed spec fn div_spec(self, rhs: u64) -> Self {
        NFrames { n_frames: (self.n_frames / rhs) as u64 }
    }
}

/// A number of samples, counted over all channels.
#[derive(Clone, Copy, Debug, PartialEq, Eq, PartialOrd, Ord, Hash)]
pub struct NSamples {
    n_samples: u64,
}

impl View for NSamples {
    type V = nat;

    closed spec fn view(&self) -> nat {
        self.n_samples as nat
    }
}

impl NSamples {
    /// The count, as a number.
    pub fn get(self) -> (n: u64)
        ensures
            n == self@,
    {
        self.n_samples
    }

    /// The duration of this unit with the count `n`.
    pub closed spec fn of(n: nat) -> Self {
        NSamples { n_samples: n as u64 }
    }

    /// `of` builds the duration with the given count, where the count fits.
    pub broadcast proof fn lemma_of_count(n: nat)
        requires
            n <= u64::MAX,
        ensures
            (#[trigger] Self::of(n))@ == n,
    {
    }

    /// Two durations of this unit are equal when their counts are.
    pub proof fn lemma_equal_by_count(self, other: Self)
        requires
            self@ == other@,
        ensures
            self == other,
    {
    }

    /// A count of this unit is never above the largest `u64`.
    pub proof fn lemma_count_bound(self)
        ensures
            self@ <= u64::MAX,
    {
    }
}

impl From<u64> for NSamples {
    fn from(n: u64) -> (d: Self)
        ensures
            d@ == n,
    {
        NSamples { n_samples: n }
    }
}

impl vstd::std_specs::convert::FromSpecImpl<u64> for NSamples {
    open spec fn obeys_from_spec() -> bool {
        true
    }

    closed spec fn from_spec(n: u64) -> Self {
        NSamples { n_samples: n }
    }
}

impl Add<NSamples> for NSamples {
    type Output = Self;

    fn add(self, rhs: Self) -> (d: Self)
        ensures
            d@ == self@ + rhs@,
    {
        NSamples { n_samples: self.n_samples + rhs.n_samples }
    }
}

impl vstd::std_specs::ops::AddSpecImpl<NSamples> for NSamples {
    open spec fn obeys_add_spec() -> bool {
        true
    }

    open spec fn add_req(self, rhs: Self) -> bool {
        self@ + rhs@ <= u64::MAX
    }

    closed spec fn add_spec(self, rhs: Self) -> Self {
        NSamples { n_samples: (self.n_samples + rhs.n_samples) as u64 }
    }
}

impl Sub<NSamples> for NSamples {
    type Output = Self;

    fn sub(self, rhs: Self) -> (d: Self)
        ensures
            d@ == self@ - rhs@,
    {
        NSamples { n_samples: self.n_samples - rhs.n_samples }
    }
}

impl vstd::std_specs::ops::SubSpecImpl<NSamples> for NSamples {
    open spec fn obeys_sub_spec() -> bool {
        true
    }

    open spec fn sub_req(self, rhs: Self) -> bool {
        rhs@ <= self@
    }

    closed spec fn sub_spec(self, rhs: Self) -> Self {
        NSamples { n_samples: (self.n_samples - rhs.n_samples) as u64 }
    }
}

impl Mul<u64> for NSamples {
    type Output = Self;

    fn mul(self, rhs: u64) -> (d: Self)
        ensures
            d@ == self@ * rhs,
    {
        NSamples { n_samples: self.n_samples * rhs }
    }
}

impl vstd::std_specs::ops::MulSpecImpl<u64> for NSamples {
    open spec fn obeys_mul_spec() -> bool {
        true
    }

    open spec fn mul_req(self, rhs: u64) -> bool {
        self@ * rhs <= u64::MAX
    }

    closed spec fn mul_spec(self, rhs: u64) -> Self {
        NSamples { n_samples: (self.n_samples * rhs) as u64 }
    }
}

impl Div<NSamples> for NSamples {
    type Output = u64;

    fn div(self, rhs: Self) -> (ratio: u64) {
        self.n_samples / rhs.n_samples
    }
}

impl vstd::std_specs::ops::DivSpecImpl<NSamples> for NSamples {
    open spec fn obeys_div_spec() -> bool {
        true
    }

    open spec fn div_req(self, rhs: Self) -> bool {
        rhs@ > 0
    }

    open spec fn div_spec(self, rhs: Self) -> u64 {
        (self@ / rhs@) as u64
    }
}

impl Div<u64> for NSamples {
    type Output = Self;

    fn div(self, rhs: u64) -> (d: Self)
        ensures
            d@ == self@ / (rhs as nat),
    {
        NSamples { n_samples: self.n_samples / rhs }
    }
}

impl vstd::std_specs::ops::DivSpecImpl<u64> for NSamples {
    open spec fn obeys_div_spec() -> bool {
        true
    }

    open spec fn div_req(self, rhs: u64) -> bool {
        rhs > 0
    }

    closed spec fn div_spec(self, rhs: u64) -> Self {
        NSamples { n_samples: (self.n_samples / rhs) as u64 }
    }
}

/// A number of encoded bytes.
#[derive(Clone, Copy, Debug, PartialEq, Eq, PartialOrd, Ord, Hash)]
pub struct NBytes {
    n_bytes: u64,
}

impl View for NBytes {
    type V = nat;

    closed spec fn view(&self) -> nat {
        self.n_bytes as nat
    }
}

impl NBytes {
    /// The count, as a number.
    pub fn get(self) -> (n: u64)
        ensures
            n == self@,
    {
        self.n_bytes
    }

    /// The duration of this unit with the count `n`.
    pub closed spec fn of(n: nat) -> Self {
        NBytes { n_bytes: n as u64 }
    }

    /// `of` builds the duration with the given count, where the count fits.
    pub broadcast proof fn lemma_of_count(n: nat)
        requires
            n <= u64::MAX,
        ensures
            (#[trigger] Self::of(n))@ == n,
    {
    }

    /// Two durations of this unit are equal when their counts are.
    pub proof fn lemma_equal_by_count(self, other: Self)
        requires
            self@ == other@,
        ensures
            self == other,
    {
    }

    /// A count of this unit is never above the largest `u64`.
    pub proof fn lemma_count_bound(self)
        ensures
            self@ <= u64::MAX,
    {
    }
}

impl From<u64> for NBytes {
    fn from(n: u64) -> (d: Self)
        ensures
            d@ == n,
    {
        NBytes { n_bytes: n }
    }
}

impl vstd::std_specs::convert::FromSpecImpl<u64> for NBytes {
    open spec fn obeys_from_spec() -> bool {
        true
    }

    closed spec fn from_spec(n: u64) -> Self {
        NBytes { n_bytes: n }
    }
}

impl Add<NBytes> for NBytes {
    type Output = Self;

    fn add(self, rhs: Self) -> (d: Self)
        ensures
            d@ == self@ + rhs@,
    {
        NBytes { n_bytes: self.n_bytes + rhs.n_bytes }
    }
}

impl vstd::std_specs::ops::AddSpecImpl<NBytes> for NBytes {
    open spec fn obeys_add_spec() -> bool {
        true
    }

    open spec fn add_req(self, rhs: Self) -> bool {
        self@ + rhs@ <= u64::MAX
    }

    closed spec fn add_spec(self, rhs: Self) -> Self {
        NBytes { n_bytes: (self.n_bytes + rhs.n_bytes) as u64 }
    }
}

impl Sub<NBytes> for NBytes {
    type Output = Self;

    fn sub(self, rhs: Self) -> (d: Self)
        ensures
            d@ == self@ - rhs@,
    {
        NBytes { n_bytes: self.n_bytes - rhs.n_bytes }
    }
}

impl vstd::std_specs::ops::SubSpecImpl<NBytes> for NBytes {
    open spec fn obeys_sub_spec() -> bool {
        true
    }

    open spec fn sub_req(self, rhs: Self) -> bool {
        rhs@ <= self@
    }

    closed spec fn sub_spec(self, rhs: Self) -> Self {
        NBytes { n_bytes: (self.n_bytes - rhs.n_bytes) as u64 }
    }
}

impl Mul<u64> for NBytes {
    type Output = Self;

    fn mul(self, rhs: u64) -> (d: Self)
        ensures
            d@ == self@ * rhs,
    {
        NBytes { n_bytes: self.n_bytes * rhs }
    }
}

impl vstd::std_specs::ops::MulSpecImpl<u64> for NBytes {
    open spec fn obeys_mul_spec() -> bool {
        true
    }

    open spec fn mul_req(self, rhs: u64) -> bool {
        self@ * rhs <= u64::MAX
    }

    closed spec fn mul_spec(self, rhs: u64) -> Self {
        NBytes { n_bytes: (self.n_bytes * rhs) as u64 }
    }
}

impl Div<NBytes> for NBytes {
    type Output = u64;

    fn div(self, rhs: Self) -> (ratio: u64) {
        self.n_bytes / rhs.n_bytes
    }
}

impl vstd::std_specs::ops::DivSpecImpl<NBytes> for NBytes {
    open spec fn obeys_div_spec() -> bool {
        true
    }

    open spec fn div_req(self, rhs: Self) -> bool {
        rhs@ > 0
    }

    open spec fn div_spec(self, rhs: Self) -> u64 {
        (self@ / rhs@) as u64
    }
}

impl Div<u64> for NBytes {
    type Output = Self;

    fn div(self, rhs: u64) -> (d: Self)
        ensures
            d@ == self@ / (rhs as nat),
    {
        NBytes { n_bytes: self.n_bytes / rhs }
    }
}

impl vstd::std_specs::ops::DivSpecImpl<u64> for NBytes {
    open spec fn obeys_div_spec() -> bool {
        true
    }

    open spec fn div_req(self, rhs: u64) -> bool {
        rhs > 0
    }

    closed spec fn div_spec(self, rhs: u64) -> Self {
        NBytes { n_bytes: (self.n_bytes / rhs) as u64 }
    }
}

/// A number of blocks of encoded bytes.
#[derive(Clone, Copy, Debug, PartialEq, Eq, PartialOrd, Ord, Hash)]
pub struct NBlocks {
    n_blocks: u64,
}

impl View for NBlocks {
    type V = nat;

    closed spec fn view(&self) -> nat {
        self.n_blocks as nat
    }
}

impl NBlocks {
    /// The count, as a number.
    pub fn get(self) -> (n: u64)
        ensures
            n == self@,
    {
        self.n_blocks
    }

    /// The duration of this unit with the count `n`.
    pub closed spec fn of(n: nat) -> Self {
        NBlocks { n_blocks: n as u64 }
    }

    /// `of` builds the duration with the given count, where the count fits.
    pub broadcast proof fn lemma_of_count(n: nat)
        requires
            n <= u64::MAX,
        ensures
            (#[trigger] Self::of(n))@ == n,
    {
    }

    /// Two durations of this unit are equal when their counts are.
    pub proof fn lemma_equal_by_count(self, other: Self)
        requires
            self@ == other@,
        ensures
            self == other,
    {
    }

    /// A count of this unit is never above the largest `u64`.
    pub proof fn lemma_count_bound(self)
        ensures
            self@ <= u64::MAX,
    {
    }
}

impl From<u64> for NBlocks {
    fn from(n: u64) -> (d: Self)
        ensures
            d@ == n,
    {
        NBlocks { n_blocks: n }
    }
}

impl vstd::std_specs::convert::FromSpecImpl<u64> for NBlocks {
    open spec fn obeys_from_spec() -> bool {
        true
    }

    closed spec fn from_spec(n: u64) -> Self {
        NBlocks { n_blocks: n }
    }
}

impl Add<NBlocks> for NBlocks {
    type Output = Self;

    fn add(self, rhs: Self) -> (d: Self)
        ensures
            d@ == self@ + rhs@,
    {
        NBlocks { n_blocks: self.n_blocks + rhs.n_blocks }
    }
}

impl vstd::std_specs::ops::AddSpecImpl<NBlocks> for NBlocks {
    open spec fn obeys_add_spec() -> bool {
        true
    }

    open spec fn add_req(self, rhs: Self) -> bool {
        self@ + rhs@ <= u64::MAX
    }

    closed spec fn add_spec(self, rhs: Self) -> Self {
        NBlocks { n_blocks: (self.n_blocks + rhs.n_blocks) as u64 }
    }
}

impl Sub<NBlocks> for NBlocks {
    type Output = Self;

    fn sub(self, rhs: Self) -> (d: Self)
        ensures
            d@ == self@ - rhs@,
    {
        NBlocks { n_blocks: self.n_blocks - rhs.n_blocks }
    }
}

impl vstd::std_specs::ops::SubSpecImpl<NBlocks> for NBlocks {
    open spec fn obeys_sub_spec() -> bool {
        true
    }

    open spec fn sub_req(self, rhs: Self) -> bool {
        rhs@ <= self@
    }

    closed spec fn sub_spec(self, rhs: Self) -> Self {
        NBlocks { n_blocks: (self.n_blocks - rhs.n_blocks) as u64 }
    }
}

impl Mul<u64> for NBlocks {
    type Output = Self;

    fn mul(self, rhs: u64) -> (d: Self)
        ensures
            d@ == self@ * rhs,
    {
        NBlocks { n_blocks: self.n_blocks * rhs }
    }
}

impl vstd::std_specs::ops::MulSpecImpl<u64> for NBlocks {
    open spec fn obeys_mul_spec() -> bool {
        true
    }

    open spec fn mul_req(self, rhs: u64) -> bool {
        self@ * rhs <= u64::MAX
    }

    closed spec fn mul_spec(self, rhs: u64) -> Self {
        NBlocks { n_blocks: (self.n_blocks * rhs) as u64 }
    }
}

impl Div<NBlocks> for NBlocks {
    type Output = u64;

    fn div(self, rhs: Self) -> (ratio: u64) {
        self.n_blocks / rhs.n_blocks
    }
}

impl vstd::std_specs::ops::DivSpecImpl<NBlocks> for NBlocks {
    open spec fn obeys_div_spec() -> bool {
        true
    }

    open spec fn div_req(self, rhs: Self) -> bool {
        rhs@ > 0
    }

    open spec fn div_spec(self, rhs: Self) -> u64 {
        (self@ / rhs@) as u64
    }
}

impl Div<u64> for NBlocks {
    type Output = Self;

    fn div(self, rhs: u64) -> (d: Self)
        ensures
            d@ == self@ / (rhs as nat),
    {
        NBlocks { n_blocks: self.n_blocks / rhs }
    }
}

impl vstd::std_specs::ops::DivSpecImpl<u64> for NBlocks {
    open spec fn obeys_div_spec() -> bool {
        true
    }

    open spec fn div_req(self, rhs: u64) -> bool {
        rhs > 0
    }

    closed spec fn div_spec(self, rhs: u64) -> Self {
        NBlocks { n_blocks: (self.n_blocks / rhs) as u64 }
    }
}

/// A duration that can be made from one of the unit `T`, by the description
/// of the stream that both are about.
pub trait FromStreamDuration<T>: Sized {
    /// Whether `duration` is a whole count of this unit, small enough to be
    /// held.
    open spec fn convertible(duration: T, spec: StreamParams) -> bool {
        true
    }

    /// `duration`, in this unit.
    open spec fn converted(duration: T, spec: StreamParams) -> Self {
        arbitrary()
    }

    /// Converts `duration` to this unit.
    fn from_stream_duration<C: Tag>(duration: T, spec: &StreamSpec<C>) -> (r: Self)
        requires
            Self::convertible(duration, spec.params()),
        ensures
            r == Self::converted(duration, spec.params()),
    ;
}

/// A duration that can be turned into one of the unit `T`.
pub trait IntoStreamDuration<T>: Sized {
    /// Whether this duration is a whole count of the unit `T`, small enough
    /// to be held.
    open spec fn convertible_into(self, spec: StreamParams) -> bool {
        true
    }

    /// This duration, in the unit `T`.
    open spec fn converted_into(self, spec: StreamParams) -> T {
        arbitrary()
    }

    /// Converts this duration to the unit `T`.
    fn into_stream_duration<C: Tag>(self, spec: &StreamSpec<C>) -> (r: T)
        requires
            self.convertible_into(spec.params()),
        ensures
            r == self.converted_into(spec.params()),
    ;
}

impl<T, U: FromStreamDuration<T>> IntoStreamDuration<U> for T {
    open spec fn convertible_into(self, spec: StreamParams) -> bool {
        U::convertible(self, spec)
    }

    open spec fn converted_into(self, spec: StreamParams) -> U {
        U::converted(self, spec)
    }

    fn into_stream_duration<C: Tag>(self, spec: &StreamSpec<C>) -> (r: U) {
        U::from_stream_duration(self, spec)
    }
}

/// A duration of the encoded side: one that converts from and into bytes and
/// blocks, and can be added, subtracted and compared.
pub trait StreamDuration:
    Sized
    + Copy
    + PartialEq
    + PartialOrd
    + FromStreamDuration<NBytes>
    + FromStreamDuration<NBlocks>
    + IntoStreamDuration<NBytes>
    + IntoStreamDuration<NBlocks>
    + Add<Output = Self>
    + Sub<Output = Self>
{
}

impl<T> StreamDuration for T where
    T: Sized
        + Copy
        + PartialEq
        + PartialOrd
        + FromStreamDuration<NBytes>
        + FromStreamDuration<NBlocks>
        + IntoStreamDuration<NBytes>
        + IntoStreamDuration<NBlocks>
        + Add<Output = Self>
        + Sub<Output = Self>,
{
}

impl FromStreamDuration<NBytes> for NBytes {
    open spec fn convertible(duration: NBytes, spec: StreamParams) -> bool {
        true
    }

    open spec fn converted(duration: NBytes, spec: StreamParams) -> Self {
        duration
    }

    fn from_stream_duration<C: Tag>(duration: NBytes, spec: &StreamSpec<C>) -> (r: Self) {
        duration
    }
}

impl FromStreamDuration<NBlocks> for NBlocks {
    open spec fn convertible(duration: NBlocks, spec: StreamParams) -> bool {
        true
    }

    open spec fn converted(duration: NBlocks, spec: StreamParams) -> Self {
        duration
    }

    fn from_stream_duration<C: Tag>(duration: NBlocks, spec: &StreamSpec<C>) -> (r: Self) {
        duration
    }
}

impl FromStreamDuration<NBlocks> for NBytes {
    /// Blocks become bytes where the product with the block size fits.
    open spec fn convertible(duration: NBlocks, spec: StreamParams) -> bool {
        duration@ * spec.block_align <= u64::MAX
    }

    /// Each block is `block_align` bytes.
    open spec fn converted(duration: NBlocks, spec: StreamParams) -> Self {
        NBytes::of(duration@ * spec.block_align as nat)
    }

    fn from_stream_duration<C: Tag>(duration: NBlocks, spec: &StreamSpec<C>) -> (r: Self)
        ensures
            r@ == duration@ * spec.block_align,
    {
        NBytes { n_bytes: duration.n_blocks * (spec.block_align as u64) }
    }
}

impl FromStreamDuration<NBytes> for NBlocks {
    /// Bytes become blocks where they end on a block boundary: a count that
    /// leaves a remainder is not converted, and not cut short either.
    open spec fn convertible(duration: NBytes, spec: StreamParams) -> bool {
        spec.block_align > 0 && duration@ % spec.block_align as nat == 0
    }

    /// `block_align` bytes are one block.
    open spec fn converted(duration: NBytes, spec: StreamParams) -> Self {
        NBlocks::of(duration@ / spec.block_align as nat)
    }

    fn from_stream_duration<C: Tag>(duration: NBytes, spec: &StreamSpec<C>) -> (r: Self)
        ensures
            r@ == duration@ / spec.block_align as nat,
    {
        NBlocks { n_blocks: duration.n_bytes / (spec.block_align as u64) }
    }
}

impl FromStreamDuration<NFrames> for NSamples {
    /// Frames become samples where the product with the channel count fits.
    open spec fn convertible(duration: NFrames, spec: StreamParams) -> bool {
        duration@ * spec.decoded_spec.channels.count_spec() <= u64::MAX
    }

    /// Each frame holds one sample for every channel.
    open spec fn converted(duration: NFrames, spec: StreamParams) -> Self {
        NSamples::of(duration@ * spec.decoded_spec.channels.count_spec())
    }

    fn from_stream_duration<C: Tag>(duration: NFrames, spec: &StreamSpec<C>) -> (r: Self)
        ensures
            r@ == duration@ * spec.decoded_spec.channels.count_spec(),
    {
        let channels: u32 = spec.decoded_spec.channels.count();
        NSamples { n_samples: duration.n_frames * (channels as u64) }
    }
}

impl FromStreamDuration<NSamples> for NFrames {
    /// Samples become frames where they fill whole frames.
    open spec fn convertible(duration: NSamples, spec: StreamParams) -> bool {
        spec.decoded_spec.channels.count_spec() > 0 && duration@
            % spec.decoded_spec.channels.count_spec() == 0
    }

    /// One sample for every channel is one frame.
    open spec fn converted(duration: NSamples, spec: StreamParams) -> Self {
        NFrames::of(duration@ / spec.decoded_spec.channels.count_spec())
    }

    fn from_stream_duration<C: Tag>(duration: NSamples, spec: &StreamSpec<C>) -> (r: Self)
        ensures
            r@ == duration@ / spec.decoded_spec.channels.count_spec(),
    {
        let channels: u32 = spec.decoded_spec.channels.count();
        NFrames { n_frames: duration.n_samples / (channels as u64) }
    }
}

impl NBytes {
    /// `blocks` in bytes, or `None` where the count does not fit.
    pub fn checked_from_blocks<C: Tag>(blocks: NBlocks, spec: &StreamSpec<C>) -> (r: Option<
        Self,
    >)
        ensures
            r is Some == <NBytes as FromStreamDuration<NBlocks>>::convertible(
                blocks,
                spec.params(),
            ),
            r matches Some(bytes) ==> bytes == <NBytes as FromStreamDuration<NBlocks>>::converted(
                blocks,
                spec.params(),
            ) && bytes@ == blocks@ * spec.block_align,
    {
        match blocks.n_blocks.checked_mul(spec.block_align as u64) {
            Some(n_bytes) => Some(NBytes { n_bytes }),
            None => None,
        }
    }
}

impl NBlocks {
    /// `bytes` in blocks, or `None` where they do not end on a block
    /// boundary.
    pub fn checked_from_bytes<C: Tag>(bytes: NBytes, spec: &StreamSpec<C>) -> (r: Option<
        Self,
    >)
        ensures
            r is Some == <NBlocks as FromStreamDuration<NBytes>>::convertible(
                bytes,
                spec.params(),
            ),
            r matches Some(blocks) ==> blocks == <NBlocks as FromStreamDuration<NBytes>>::converted(
                bytes,
                spec.params(),
            ) && blocks@ == bytes@ / spec.block_align as nat,
    {
        if spec.block_align == 0 {
            return None;
        }
        let align: u64 = spec.block_align as u64;
        if bytes.n_bytes % align != 0 {
            return None;
        }
        Some(NBlocks { n_blocks: bytes.n_bytes / align })
    }
}

/// Blocks that are turned into bytes and back are the same blocks, whatever
/// the block size of the stream, as long as it is positive and the bytes can
/// be held.
pub proof fn lemma_blocks_round_trip(blocks: NBlocks, spec: StreamParams)
    requires
        spec.block_align > 0,
        <NBytes as FromStreamDuration<NBlocks>>::convertible(blocks, spec),
    ensures
        <NBlocks as FromStreamDuration<NBytes>>::convertible(
            <NBytes as FromStreamDuration<NBlocks>>::converted(blocks, spec),
            spec,
        ),
        <NBlocks as FromStreamDuration<NBytes>>::converted(
            <NBytes as FromStreamDuration<NBlocks>>::converted(blocks, spec),
            spec,
        ) == blocks,
{
    let n = blocks@ as int;
    let a = spec.block_align as int;
    vstd::arithmetic::div_mod::lemma_mod_multiples_basic(n, a);
    vstd::arithmetic::div_mod::lemma_div_multiples_vanish(n, a);
    assert(n * a == a * n) by (nonlinear_arith);
}

/// Bytes that end on a block boundary and are turned into blocks and back
/// are the same bytes.
pub proof fn lemma_bytes_round_trip(bytes: NBytes, spec: StreamParams)
    requires
        <NBlocks as FromStreamDuration<NBytes>>::convertible(bytes, spec),
    ensures
        <NBytes as FromStreamDuration<NBlocks>>::convertible(
            <NBlocks as FromStreamDuration<NBytes>>::converted(bytes, spec),
            spec,
        ),
        <NBytes as FromStreamDuration<NBlocks>>::converted(
            <NBlocks as FromStreamDuration<NBytes>>::converted(bytes, spec),
            spec,
        ) == bytes,
{
    let n = bytes@ as int;
    let a = spec.block_align as int;
    vstd::arithmetic::div_mod::lemma_fundamental_div_mod(n, a);
    assert(0 <= n / a <= n) by (nonlinear_arith)
        requires
            n >= 0,
            a > 0,
    ;
    assert((n / a) * a == a * (n / a)) by (nonlinear_arith);
}

} // verus!
