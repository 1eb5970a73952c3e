//! The description of an encoded stream, and its partial form.

use vstd::prelude::*;
use vstd::std_specs::convert::{FromSpec, IntoSpec, TryIntoSpec};
use crate::codec::{CodecTag, Tag};
use crate::error::PhonicError;
use crate::layout::TypeLayout;
use crate::signal::Signal;
use crate::signal_spec::{merge_field, SignalSpec, SignalSpecBuilder};

verus! {

/// The parameters of an encoded stream.
#[derive(Clone, Copy, Debug, PartialEq, Eq)]
pub struct StreamSpec<C> {
    /// How the stream is encoded.
    pub codec: C,
    /// Bytes per second, on average.
    pub avg_byte_rate: u32,
    /// The size in bytes of the smallest unit that can be addressed.
    pub block_align: usize,
    /// How one decoded sample is stored.
    pub sample_layout: TypeLayout,
    /// The signal that decoding gives.
    pub decoded_spec: SignalSpec,
}

/// A stream description of which any field may still be unknown.
#[derive(Clone, Copy, Debug, PartialEq, Eq)]
pub struct StreamSpecBuilder<C> {
    /// How the stream is encoded, where known.
    pub codec: Option<C>,
    /// Bytes per second, where known.
    pub avg_byte_rate: Option<u32>,
    /// The block size, where known.
    pub block_align: Option<usize>,
    /// How one decoded sample is stored, where known.
    pub sample_layout: Option<TypeLayout>,
    /// What is known of the signal that decoding gives.
    pub decoded_spec: SignalSpecBuilder,
}

/// What a stream description says of rates, sizes and the decoded signal:
/// every field but the codec tag.
pub struct StreamParams {
    /// Bytes per second, on average.
    pub avg_byte_rate: u32,
    /// The size in bytes of the smallest unit that can be addressed.
    pub block_align: usize,
    /// How one decoded sample is stored.
    pub sample_layout: TypeLayout,
    /// The signal that decoding gives.
    pub decoded_spec: SignalSpec,
}

/// `big` is a whole number of times `small`. Only zero is a multiple of zero.
pub open spec fn is_multiple(big: int, small: int) -> bool {
    if small == 0 {
        big == 0
    } else {
        big % small == 0
    }
}

/// The block size on which two observed block sizes agree: the larger one,
/// where it is a whole number of times the smaller; `None` where it is not.
pub open spec fn merge_align(a: usize, b: usize) -> Option<usize> {
    let lo = if a <= b {
        a
    } else {
        b
    };
    let hi = if a <= b {
        b
    } else {
        a
    };
    if is_multiple(hi as int, lo as int) {
        Some(hi)
    } else {
        None
    }
}

/// What merging two optional block sizes gives: the one that is present, the
/// reconciled size where both are, or `None` where they cannot be reconciled.
pub open spec fn merge_align_field(mine: Option<usize>, theirs: Option<usize>) -> Option<
    Option<usize>,
> {
    match (mine, theirs) {
        (_, None) => Some(mine),
        (None, Some(b)) => match merge_align(b, b) {
            Some(m) => Some(Some(m)),
            None => None,
        },
        (Some(a), Some(b)) => match merge_align(a, b) {
            Some(m) => Some(Some(m)),
            None => None,
        },
    }
}

/// Reconciles two observed block sizes.
pub fn reconcile_align(a: usize, b: usize) -> (r: Option<usize>)
    ensures
        r == merge_align(a, b),
{
    let lo: usize = if a <= b {
        a
    } else {
        b
    };
    let hi: usize = if a <= b {
        b
    } else {
        a
    };
    if lo == 0 {
        if hi == 0 {
            Some(hi)
        } else {
            None
        }
    } else if hi % lo == 0 {
        Some(hi)
    } else {
        None
    }
}

impl<C> StreamSpec<C> {
    /// The fields of this description, without its codec tag.
    pub open spec fn params(self) -> StreamParams {
        StreamParams {
            avg_byte_rate: self.avg_byte_rate,
            block_align: self.block_align,
            sample_layout: self.sample_layout,
            decoded_spec: self.decoded_spec,
        }
    }

    /// The builder that holds every field of this description.
    pub open spec fn as_builder(self) -> StreamSpecBuilder<C> {
        StreamSpecBuilder {
            codec: Some(self.codec),
            avg_byte_rate: Some(self.avg_byte_rate),
            block_align: Some(self.block_align),
            sample_layout: Some(self.sample_layout),
            decoded_spec: self.decoded_spec.as_builder(),
        }
    }

    /// A description is valid when its rates and block size are positive and
    /// the decoded signal is valid.
    pub open spec fn is_valid_spec(self) -> bool {
        &&& self.avg_byte_rate > 0
        &&& self.block_align > 0
        &&& self.decoded_spec.is_valid_spec()
    }

    /// The two descriptions agree on codec, byte rate and sample layout, and
    /// their block sizes can be reconciled.
    pub open spec fn header_agrees(self, codec: C, other_rate: u32, other_align: usize,
        other_layout: TypeLayout) -> bool {
        &&& self.codec == codec
        &&& self.avg_byte_rate == other_rate
        &&& self.sample_layout == other_layout
        &&& merge_align(self.block_align, other_align) is Some
    }

    /// The description that merging with a description of the given fields
    /// leaves behind: the block size is reconciled where the other fields
    /// agree, and nothing else changes.
    pub open spec fn merge_state(self, codec: C, other_rate: u32, other_align: usize,
        other_layout: TypeLayout) -> Self {
        if self.header_agrees(codec, other_rate, other_align, other_layout) {
            StreamSpec { block_align: merge_align(self.block_align, other_align)->0, ..self }
        } else {
            self
        }
    }

    /// What merging with a description of the given fields returns.
    pub open spec fn merge_result(self, codec: C, other_rate: u32, other_align: usize,
        other_layout: TypeLayout, other_decoded: SignalSpec) -> Result<(), PhonicError> {
        if self.header_agrees(codec, other_rate, other_align, other_layout)
            && self.decoded_spec == other_decoded {
            Ok(())
        } else {
            Err(PhonicError::ParamMismatch)
        }
    }

    /// What `merged` returns for two descriptions under one tag type.
    pub open spec fn merged_spec(self, other: Self) -> Result<Self, PhonicError> {
        match self.merge_result(
            other.codec,
            other.avg_byte_rate,
            other.block_align,
            other.sample_layout,
            other.decoded_spec,
        ) {
            Ok(()) => Ok(
                self.merge_state(
                    other.codec,
                    other.avg_byte_rate,
                    other.block_align,
                    other.sample_layout,
                ),
            ),
            Err(e) => Err(e),
        }
    }
}

impl<C: Tag> StreamSpec<C> {
    /// An empty builder.
    pub fn builder() -> (b: StreamSpecBuilder<C>)
        ensures
            b == StreamSpecBuilder::<C>::empty(),
    {
        StreamSpecBuilder::new()
    }

    /// The builder that holds every field of this description.
    pub fn into_builder(self) -> (b: StreamSpecBuilder<C>)
        ensures
            b == self.as_builder(),
    {
        StreamSpecBuilder {
            codec: Some(self.codec),
            avg_byte_rate: Some(self.avg_byte_rate),
            block_align: Some(self.block_align),
            sample_layout: Some(self.sample_layout),
            decoded_spec: self.decoded_spec.into_builder(),
        }
    }

    /// The same description under another tag type, where every tag of `C`
    /// has a counterpart in `T`.
    pub fn with_tag_type<T>(self) -> (r: StreamSpec<T>) where T: Tag, C: Into<T>
        ensures
            r.avg_byte_rate == self.avg_byte_rate,
            r.block_align == self.block_align,
            r.sample_layout == self.sample_layout,
            r.decoded_spec == self.decoded_spec,
            C::obeys_into_spec() ==> r.codec == self.codec.into_spec(),
    {
        StreamSpec {
            codec: self.codec.into(),
            avg_byte_rate: self.avg_byte_rate,
            block_align: self.block_align,
            sample_layout: self.sample_layout,
            decoded_spec: self.decoded_spec,
        }
    }

    /// Whether the rates and the block size are positive and the decoded
    /// signal is valid.
    pub fn is_valid(&self) -> (b: bool)
        ensures
            b == self.is_valid_spec(),
    {
        self.avg_byte_rate > 0 && self.block_align > 0 && self.decoded_spec.is_valid()
    }

    /// Unifies this description with another one of the same stream, whose
    /// codec tag has been converted to `C` already: `codec` is the result of
    /// that conversion.
    ///
    /// A failed conversion is returned as it is, and nothing changes. Codec,
    /// byte rate, sample layout and decoded signal must be equal. The block
    /// sizes need not be: the larger one is kept where it is a whole number
    /// of times the smaller, and it is kept before the decoded signals are
    /// compared. Any other difference gives `ParamMismatch`.
    pub fn merge_converted<T>(
        &mut self,
        codec: Result<C, PhonicError>,
        other: &StreamSpec<T>,
    ) -> (r: Result<(), PhonicError>)
        ensures
            match codec {
                Ok(codec) => {
                    &&& *final(self) == old(self).merge_state(
                        codec,
                        other.avg_byte_rate,
                        other.block_align,
                        other.sample_layout,
                    )
                    &&& r == old(self).merge_result(
                        codec,
                        other.avg_byte_rate,
                        other.block_align,
                        other.sample_layout,
                        other.decoded_spec,
                    )
                },
                Err(e) => *final(self) == *old(self) && r == Err::<(), PhonicError>(e),
            },
    {
        let codec: C = match codec {
            Ok(codec) => codec,
            Err(e) => {
                return Err(e);
            },
        };
        if !self.codec.same(&codec) || self.avg_byte_rate != other.avg_byte_rate
            || !self.sample_layout.same(&other.sample_layout) {
            return Err(PhonicError::ParamMismatch);
        }
        match reconcile_align(self.block_align, other.block_align) {
            None => {
                return Err(PhonicError::ParamMismatch);
            },
            Some(align) => {
                self.block_align = align;
            },
        }
        self.decoded_spec.merge(&other.decoded_spec)
    }

    /// Unifies this description with another one of the same stream.
    ///
    /// The tag of `other` is first converted to `C`, and the rest is done by
    /// `merge_converted`: a failed conversion gives its error, a difference
    /// in codec, byte rate, sample layout or decoded signal `ParamMismatch`,
    /// and of two block sizes the larger is kept where it is a whole number
    /// of times the smaller.
    pub fn merge<T>(&mut self, other: &StreamSpec<T>) -> (r: Result<(), PhonicError>) where
        T: Tag + TryInto<C>,
        PhonicError: From<<T as TryInto<C>>::Error>,

        ensures
            T::obeys_try_into_spec() && <PhonicError as FromSpec<
                <T as TryInto<C>>::Error,
            >>::obeys_from_spec() ==> match other.codec.try_into_spec() {
                Ok(codec) => {
                    &&& *final(self) == old(self).merge_state(
                        codec,
                        other.avg_byte_rate,
                        other.block_align,
                        other.sample_layout,
                    )
                    &&& r == old(self).merge_result(
                        codec,
                        other.avg_byte_rate,
                        other.block_align,
                        other.sample_layout,
                        other.decoded_spec,
                    )
                },
                Err(e) => *final(self) == *old(self) && r == Err::<(), PhonicError>(
                    PhonicError::from_spec(e),
                ),
            },
            final(self).codec == old(self).codec,
            final(self).avg_byte_rate == old(self).avg_byte_rate,
            final(self).sample_layout == old(self).sample_layout,
            final(self).decoded_spec == old(self).decoded_spec,
            final(self).block_align == old(self).block_align || (final(self).block_align
                == other.block_align && merge_align(old(self).block_align, other.block_align)
                == Some(other.block_align)),
            r is Ok ==> {
                &&& old(self).avg_byte_rate == other.avg_byte_rate
                &&& old(self).sample_layout == other.sample_layout
                &&& old(self).decoded_spec == other.decoded_spec
                &&& merge_align(old(self).block_align, other.block_align) == Some(
                    final(self).block_align,
                )
            },
    {
        let codec: Result<C, PhonicError> = match other.codec.try_into() {
            Ok(codec) => Ok(codec),
            Err(e) => Err(PhonicError::from(e)),
        };
        self.merge_converted(codec, other)
    }

    /// The merge of this description with `other`, whose codec tag has been
    /// converted to `C` already: `codec` is the result of that conversion.
    pub fn merged_converted<T>(self, codec: Result<C, PhonicError>, other: &StreamSpec<T>) -> (r:
        Result<Self, PhonicError>)
        ensures
            match codec {
                Ok(codec) => match self.merge_result(
                    codec,
                    other.avg_byte_rate,
                    other.block_align,
                    other.sample_layout,
                    other.decoded_spec,
                ) {
                    Ok(()) => r == Ok::<Self, PhonicError>(
                        self.merge_state(
                            codec,
                            other.avg_byte_rate,
                            other.block_align,
                            other.sample_layout,
                        ),
                    ),
                    Err(e) => r == Err::<Self, PhonicError>(e),
                },
                Err(e) => r == Err::<Self, PhonicError>(e),
            },
    {
        let mut merged = self;
        match merged.merge_converted(codec, other) {
            Ok(()) => Ok(merged),
            Err(e) => Err(e),
        }
    }

    /// The merge of this description with `other`, where they agree.
    pub fn merged<T>(self, other: &StreamSpec<T>) -> (r: Result<Self, PhonicError>) where
        T: Tag + TryInto<C>,
        PhonicError: From<<T as TryInto<C>>::Error>,

        ensures
            T::obeys_try_into_spec() && <PhonicError as FromSpec<
                <T as TryInto<C>>::Error,
            >>::obeys_from_spec() ==> match other.codec.try_into_spec() {
                Ok(codec) => match self.merge_result(
                    codec,
                    other.avg_byte_rate,
                    other.block_align,
                    other.sample_layout,
                    other.decoded_spec,
                ) {
                    Ok(()) => r == Ok::<Self, PhonicError>(
                        self.merge_state(
                            codec,
                            other.avg_byte_rate,
                            other.block_align,
                            other.sample_layout,
                        ),
                    ),
                    Err(e) => r == Err::<Self, PhonicError>(e),
                },
                Err(e) => r == Err::<Self, PhonicError>(PhonicError::from_spec(e)),
            },
    {
        let mut merged = self;
        match merged.merge(other) {
            Ok(()) => Ok(merged),
            Err(e) => Err(e),
        }
    }
}

impl<C> StreamSpecBuilder<C> {
    /// The builder with no field known.
    pub open spec fn empty() -> Self {
        StreamSpecBuilder {
            codec: None,
            avg_byte_rate: None,
            block_align: None,
            sample_layout: None,
            decoded_spec: SignalSpecBuilder::empty(),
        }
    }

    /// Byte rate, block size and sample layout are known, and so is every
    /// field of the decoded signal. The codec tag is not looked at.
    pub open spec fn is_full_spec(self) -> bool {
        &&& self.avg_byte_rate is Some
        &&& self.block_align is Some
        &&& self.sample_layout is Some
        &&& self.decoded_spec.is_full_spec()
    }

    /// Neither byte rate, block size nor sample layout is known, nor any
    /// field of the decoded signal. The codec tag is not looked at.
    pub open spec fn is_empty_spec(self) -> bool {
        &&& self.avg_byte_rate is None
        &&& self.block_align is None
        &&& self.sample_layout is None
        &&& self.decoded_spec.is_empty_spec()
    }

    /// The builder that `merge` leaves behind.
    ///
    /// Fields are merged in order: codec, byte rate, block size, decoded
    /// signal. Merging stops at the first field on which the two disagree, and
    /// what was taken over before stays. The sample layout is never touched.
    pub open spec fn merge_state(self, other: Self) -> Self {
        match merge_field(self.codec, other.codec) {
            None => self,
            Some(codec) => match merge_field(self.avg_byte_rate, other.avg_byte_rate) {
                None => StreamSpecBuilder { codec, ..self },
                Some(avg_byte_rate) => match merge_align_field(
                    self.block_align,
                    other.block_align,
                ) {
                    None => StreamSpecBuilder { codec, avg_byte_rate, ..self },
                    Some(block_align) => StreamSpecBuilder {
                        codec,
                        avg_byte_rate,
                        block_align,
                        sample_layout: self.sample_layout,
                        decoded_spec: self.decoded_spec.merge_state(other.decoded_spec),
                    },
                },
            },
        }
    }

    /// The two builders agree: on codec and byte rate where both know them,
    /// on a block size that reconciles theirs, and on the decoded signal.
    pub open spec fn agrees_with(self, other: Self) -> bool {
        &&& merge_field(self.codec, other.codec) is Some
        &&& merge_field(self.avg_byte_rate, other.avg_byte_rate) is Some
        &&& merge_align_field(self.block_align, other.block_align) is Some
        &&& self.decoded_spec.agrees_with(other.decoded_spec)
    }

    /// What `merge` returns.
    pub open spec fn merge_result(self, other: Self) -> Result<(), PhonicError> {
        if self.agrees_with(other) {
            Ok(())
        } else {
            Err(PhonicError::ParamMismatch)
        }
    }

    /// What `merged` returns.
    pub open spec fn merged_spec(self, other: Self) -> Result<Self, PhonicError> {
        if self.agrees_with(other) {
            Ok(self.merge_state(other))
        } else {
            Err(PhonicError::ParamMismatch)
        }
    }

    /// What `build` returns: the full description, or `MissingData` where any
    /// field, the codec tag included, is unknown.
    pub open spec fn build_spec(self) -> Result<StreamSpec<C>, PhonicError> {
        if self.codec is Some && self.is_full_spec() {
            Ok(
                StreamSpec {
                    codec: self.codec->0,
                    avg_byte_rate: self.avg_byte_rate->0,
                    block_align: self.block_align->0,
                    sample_layout: self.sample_layout->0,
                    decoded_spec: self.decoded_spec.build_spec()->Ok_0,
                },
            )
        } else {
            Err(PhonicError::MissingData)
        }
    }
}

impl<C: Tag> StreamSpecBuilder<C> {
    /// A builder with no field known.
    pub fn new() -> (b: Self)
        ensures
            b == Self::empty(),
    {
        StreamSpecBuilder {
            codec: None,
            avg_byte_rate: None,
            block_align: None,
            sample_layout: None,
            decoded_spec: SignalSpecBuilder::new(),
        }
    }

    /// The same builder under another tag type. Fails with the conversion's
    /// error where the tag is known and has no counterpart in `T`.
    pub fn with_tag_type<T>(self) -> (r: Result<StreamSpecBuilder<T>, PhonicError>) where
        T: Tag,
        C: TryInto<T>,
        PhonicError: From<<C as TryInto<T>>::Error>,

        ensures
            self.codec is None ==> r == Ok::<StreamSpecBuilder<T>, PhonicError>(
                StreamSpecBuilder {
                    codec: None,
                    avg_byte_rate: self.avg_byte_rate,
                    block_align: self.block_align,
                    sample_layout: self.sample_layout,
                    decoded_spec: self.decoded_spec,
                },
            ),
            self.codec is Some && C::obeys_try_into_spec() && <PhonicError as FromSpec<
                <C as TryInto<T>>::Error,
            >>::obeys_from_spec() ==> match self.codec->0.try_into_spec() {
                Ok(codec) => r == Ok::<StreamSpecBuilder<T>, PhonicError>(
                    StreamSpecBuilder {
                        codec: Some(codec),
                        avg_byte_rate: self.avg_byte_rate,
                        block_align: self.block_align,
                        sample_layout: self.sample_layout,
                        decoded_spec: self.decoded_spec,
                    },
                ),
                Err(e) => r == Err::<StreamSpecBuilder<T>, PhonicError>(PhonicError::from_spec(e)),
            },
            r matches Ok(b) ==> {
                &&& b.avg_byte_rate == self.avg_byte_rate
                &&& b.block_align == self.block_align
                &&& b.sample_layout == self.sample_layout
                &&& b.decoded_spec == self.decoded_spec
                &&& b.codec is Some == self.codec is Some
            },
    {
        let codec: Option<T> = match self.codec {
            None => None,
            Some(codec) => match codec.try_into() {
                Ok(codec) => Some(codec),
                Err(e) => {
                    return Err(PhonicError::from(e));
                },
            },
        };
        Ok(
            StreamSpecBuilder {
                codec,
                avg_byte_rate: self.avg_byte_rate,
                block_align: self.block_align,
                sample_layout: self.sample_layout,
                decoded_spec: self.decoded_spec,
            },
        )
    }

    /// Sets the codec.
    pub fn with_codec(self, codec: C) -> (b: Self)
        ensures
            b == (StreamSpecBuilder { codec: Some(codec), ..self }),
    {
        StreamSpecBuilder {
            codec: Some(codec),
            avg_byte_rate: self.avg_byte_rate,
            block_align: self.block_align,
            sample_layout: self.sample_layout,
            decoded_spec: self.decoded_spec,
        }
    }

    /// Sets the average byte rate.
    pub fn with_avg_byte_rate(self, byte_rate: u32) -> (b: Self)
        ensures
            b == (StreamSpecBuilder { avg_byte_rate: Some(byte_rate), ..self }),
    {
        StreamSpecBuilder {
            codec: self.codec,
            avg_byte_rate: Some(byte_rate),
            block_align: self.block_align,
            sample_layout: self.sample_layout,
            decoded_spec: self.decoded_spec,
        }
    }

    /// Sets the block size.
    pub fn with_block_align(self, block_align: usize) -> (b: Self)
        ensures
            b == (StreamSpecBuilder { block_align: Some(block_align), ..self }),
    {
        StreamSpecBuilder {
            codec: self.codec,
            avg_byte_rate: self.avg_byte_rate,
            block_align: Some(block_align),
            sample_layout: self.sample_layout,
            decoded_spec: self.decoded_spec,
        }
    }

    /// Sets the layout of a decoded sample.
    pub fn with_sample_layout(self, layout: TypeLayout) -> (b: Self)
        ensures
            b == (StreamSpecBuilder { sample_layout: Some(layout), ..self }),
    {
        StreamSpecBuilder {
            codec: self.codec,
            avg_byte_rate: self.avg_byte_rate,
            block_align: self.block_align,
            sample_layout: Some(layout),
            decoded_spec: self.decoded_spec,
        }
    }

    /// Sets the layout of a decoded sample to that of the type `T`.
    pub fn with_sample_type<T>(self) -> (b: Self)
        ensures
            b == (StreamSpecBuilder {
                sample_layout: Some(
                    TypeLayout {
                        size: vstd::layout::size_of::<T>() as usize,
                        align: vstd::layout::align_of::<T>() as usize,
                    },
                ),
                ..self
            }),
    {
        self.with_sample_layout(TypeLayout::of::<T>())
    }

    /// Sets what is known of the decoded signal.
    pub fn with_decoded_builder(self, decoded_spec: SignalSpecBuilder) -> (b: Self)
        ensures
            b == (StreamSpecBuilder { decoded_spec, ..self }),
    {
        StreamSpecBuilder {
            codec: self.codec,
            avg_byte_rate: self.avg_byte_rate,
            block_align: self.block_align,
            sample_layout: self.sample_layout,
            decoded_spec,
        }
    }

    /// Sets what is known of the decoded signal, from anything that converts
    /// into a builder: a builder, or a full description.
    pub fn with_decoded_spec<D: Into<SignalSpecBuilder>>(self, decoded_spec: D) -> (b: Self)
        ensures
            b.codec == self.codec,
            b.avg_byte_rate == self.avg_byte_rate,
            b.block_align == self.block_align,
            b.sample_layout == self.sample_layout,
            D::obeys_into_spec() ==> b.decoded_spec == decoded_spec.into_spec(),
    {
        self.with_decoded_builder(decoded_spec.into())
    }

    /// What is known of a stream that encodes `signal` before a codec is
    /// chosen: the layout of its samples and its description.
    pub fn from_signal<T: Signal>(signal: &T) -> (b: Self)
        ensures
            b == (StreamSpecBuilder {
                sample_layout: Some(
                    TypeLayout {
                        size: vstd::layout::size_of::<T::Sample>() as usize,
                        align: vstd::layout::align_of::<T::Sample>() as usize,
                    },
                ),
                decoded_spec: signal.spec_of().as_builder(),
                ..Self::empty()
            }),
    {
        StreamSpecBuilder {
            codec: None,
            avg_byte_rate: None,
            block_align: None,
            sample_layout: Some(TypeLayout::of::<T::Sample>()),
            decoded_spec: signal.spec().into_builder(),
        }
    }

    /// Whether every field but the codec tag is known.
    pub fn is_full(&self) -> (b: bool)
        ensures
            b == self.is_full_spec(),
    {
        self.avg_byte_rate.is_some() && self.block_align.is_some() && self.sample_layout.is_some()
            && self.decoded_spec.is_full()
    }

    /// Whether no field but the codec tag is known.
    pub fn is_empty(&self) -> (b: bool)
        ensures
            b == self.is_empty_spec(),
    {
        self.avg_byte_rate.is_none() && self.block_align.is_none() && self.sample_layout.is_none()
            && self.decoded_spec.is_empty()
    }

    /// Unifies this builder with another partial description of the same
    /// stream.
    ///
    /// Codec and byte rate are taken over where only `other` knows them, and
    /// must be equal where both do. Of two known block sizes the larger is
    /// kept, where it is a whole number of times the smaller. The decoded
    /// signals are merged field by field. Any disagreement gives
    /// `ParamMismatch`.
    pub fn merge(&mut self, other: &Self) -> (r: Result<(), PhonicError>)
        ensures
            *final(self) == old(self).merge_state(*other),
            r == old(self).merge_result(*other),
    {
        match other.codec {
            Some(codec) => match self.codec {
                Some(mine) => {
                    if !mine.same(&codec) {
                        return Err(PhonicError::ParamMismatch);
                    }
                },
                None => {
                    self.codec = Some(codec);
                },
            },
            None => {},
        }
        match other.avg_byte_rate {
            Some(rate) => match self.avg_byte_rate {
                Some(mine) => {
                    if mine != rate {
                        return Err(PhonicError::ParamMismatch);
                    }
                },
                None => {
                    self.avg_byte_rate = Some(rate);
                },
            },
            None => {},
        }
        match other.block_align {
            Some(align) => {
                let mine: usize = match self.block_align {
                    Some(mine) => mine,
                    None => align,
                };
                match reconcile_align(mine, align) {
                    None => {
                        return Err(PhonicError::ParamMismatch);
                    },
                    Some(merged) => {
                        self.block_align = Some(merged);
                    },
                }
            },
            None => {},
        }
        self.decoded_spec.merge(&other.decoded_spec)
    }

    /// The merge of the two builders, where they agree.
    pub fn merged(self, other: &Self) -> (r: Result<Self, PhonicError>)
        ensures
            r == self.merged_spec(*other),
    {
        let mut merged = self;
        match merged.merge(other) {
            Ok(()) => Ok(merged),
            Err(e) => Err(e),
        }
    }

    /// The full description, where every field is known.
    pub fn build(self) -> (r: Result<StreamSpec<C>, PhonicError>)
        ensures
            r == self.build_spec(),
    {
        let codec: C = match self.codec {
            Some(codec) => codec,
            None => {
                return Err(PhonicError::MissingData);
            },
        };
        let avg_byte_rate: u32 = match self.avg_byte_rate {
            Some(rate) => rate,
            None => {
                return Err(PhonicError::MissingData);
            },
        };
        let block_align: usize = match self.block_align {
            Some(align) => align,
            None => {
                return Err(PhonicError::MissingData);
            },
        };
        let sample_layout: TypeLayout = match self.sample_layout {
            Some(layout) => layout,
            None => {
                return Err(PhonicError::MissingData);
            },
        };
        match self.decoded_spec.build() {
            Ok(decoded_spec) => Ok(
                StreamSpec { codec, avg_byte_rate, block_align, sample_layout, decoded_spec },
            ),
            Err(e) => Err(e),
        }
    }
}

impl<C: CodecTag> StreamSpecBuilder<C> {
    /// Fills the fields that the codec can derive from the known ones, and
    /// builds the description.
    pub fn inferred(self) -> (r: Result<StreamSpec<C>, PhonicError>)
        ensures
            r == C::inferred(self),
    {
        C::infer_spec(self)
    }
}

impl<C: Tag> Default for StreamSpecBuilder<C> {
    fn default() -> (b: Self)
        ensures
            b == Self::empty(),
    {
        StreamSpecBuilder::new()
    }
}

impl<C: Tag> From<StreamSpec<C>> for StreamSpecBuilder<C> {
    fn from(spec: StreamSpec<C>) -> (b: Self) {
        spec.into_builder()
    }
}

impl<C: Tag> vstd::std_specs::convert::FromSpecImpl<StreamSpec<C>> for StreamSpecBuilder<C> {
    open spec fn obeys_from_spec() -> bool {
        true
    }

    open spec fn from_spec(spec: StreamSpec<C>) -> Self {
        spec.as_builder()
    }
}

impl<T: Signal, C: Tag> From<&T> for StreamSpecBuilder<C> {
    fn from(value: &T) -> (b: Self) {
        StreamSpecBuilder::from_signal(value)
    }
}

impl<T: Signal, C: Tag> vstd::std_specs::convert::FromSpecImpl<&T> for StreamSpecBuilder<C> {
    open spec fn obeys_from_spec() -> bool {
        true
    }

    open spec fn from_spec(value: &T) -> Self {
        StreamSpecBuilder {
            sample_layout: Some(
                TypeLayout {
                    size: vstd::layout::size_of::<T::Sample>() as usize,
                    align: vstd::layout::align_of::<T::Sample>() as usize,
                },
            ),
            decoded_spec: value.spec_of().as_builder(),
            ..Self::empty()
        }
    }
}

impl<C: Tag> TryFrom<StreamSpecBuilder<C>> for StreamSpec<C> {
    type Error = PhonicError;

    fn try_from(spec: StreamSpecBuilder<C>) -> (r: Result<StreamSpec<C>, PhonicError>) {
        spec.build()
    }
}

impl<C: Tag> vstd::std_specs::convert::TryFromSpecImpl<StreamSpecBuilder<C>> for StreamSpec<C> {
    open spec fn obeys_try_from_spec() -> bool {
        true
    }

    open spec fn try_from_spec(spec: StreamSpecBuilder<C>) -> Result<Self, PhonicError> {
        spec.build_spec()
    }
}

/// Reconciling two block sizes does not depend on their order.
pub proof fn lemma_merge_align_commutes(a: usize, b: usize)
    ensures
        merge_align(a, b) == merge_align(b, a),
{
}

/// A block size reconciles with itself, to itself.
pub proof fn lemma_merge_align_same(a: usize)
    ensures
        merge_align(a, a) == Some(a),
{
}

/// Merging two full descriptions does not depend on their order: both
/// orders fail together, and where they succeed they give equal results.
pub proof fn lemma_spec_merge_commutes<C>(a: StreamSpec<C>, b: StreamSpec<C>)
    ensures
        a.merged_spec(b) == b.merged_spec(a),
{
    lemma_merge_align_commutes(a.block_align, b.block_align);
}

/// Merging a full description with itself gives it back unchanged.
pub proof fn lemma_spec_merge_same<C>(a: StreamSpec<C>)
    ensures
        a.merged_spec(a) == Ok::<StreamSpec<C>, PhonicError>(a),
{
    lemma_merge_align_same(a.block_align);
}

/// Two builders agree in one order exactly when they agree in the other.
pub proof fn lemma_builder_agreement_symmetric<C>(
    a: StreamSpecBuilder<C>,
    b: StreamSpecBuilder<C>,
)
    ensures
        a.agrees_with(b) == b.agrees_with(a),
{
    if a.block_align is Some && b.block_align is Some {
        lemma_merge_align_commutes(a.block_align->0, b.block_align->0);
    }
    if a.block_align is Some {
        lemma_merge_align_same(a.block_align->0);
    }
    if b.block_align is Some {
        lemma_merge_align_same(b.block_align->0);
    }
}

/// Merging two builders that hold the same sample layout does not depend on
/// their order. The sample layout is not merged, so the result keeps that of
/// the builder merged into: with different layouts the two orders differ
/// in that field.
pub proof fn lemma_builder_merge_commutes<C>(
    a: StreamSpecBuilder<C>,
    b: StreamSpecBuilder<C>,
)
    requires
        a.sample_layout == b.sample_layout,
    ensures
        a.merged_spec(b) == b.merged_spec(a),
{
    lemma_builder_agreement_symmetric(a, b);
    if a.block_align is Some && b.block_align is Some {
        lemma_merge_align_commutes(a.block_align->0, b.block_align->0);
    }
    if a.block_align is Some {
        lemma_merge_align_same(a.block_align->0);
    }
    if b.block_align is Some {
        lemma_merge_align_same(b.block_align->0);
    }
}

/// Merging a builder with itself gives it back unchanged.
pub proof fn lemma_builder_merge_same<C>(a: StreamSpecBuilder<C>)
    ensures
        a.merged_spec(a) == Ok::<StreamSpecBuilder<C>, PhonicError>(a),
{
    if a.block_align is Some {
        lemma_merge_align_same(a.block_align->0);
    }
}

} // verus!
