//! The description of a decoded signal, and its partial form.

use vstd::prelude::*;
use crate::error::PhonicError;
use crate::layout::ChannelLayout;

verus! {

/// The parameters of a decoded signal.
#[derive(Clone, Copy, Debug, PartialEq, Eq, Hash, Structural)]
pub struct SignalSpec {
    /// Frames per second.
    pub sample_rate: u32,
    /// The channels of each frame.
    pub channels: ChannelLayout,
}

/// A signal description of which any field may still be unknown.
#[derive(Clone, Copy, Debug, PartialEq, Eq, Hash, Structural)]
pub struct SignalSpecBuilder {
    /// Frames per second, where known.
    pub sample_rate: Option<u32>,
    /// The channels of each frame, where known.
    pub channels: Option<ChannelLayout>,
}

/// What merging two optional values of one field gives: the value that is
/// present, or `None` where the two are present and differ.
pub open spec fn merge_field<A>(mine: Option<A>, theirs: Option<A>) -> Option<Option<A>> {
    match (mine, theirs) {
        (_, None) => Some(mine),
        (None, Some(_)) => Some(theirs),
        (Some(a), Some(b)) => if a == b {
            Some(mine)
        } else {
            None
        },
    }
}

impl SignalSpec {
    /// An empty builder.
    pub fn builder() -> (b: SignalSpecBuilder)
        ensures
            b == SignalSpecBuilder::empty(),
    {
        SignalSpecBuilder::new()
    }

    /// The builder that holds every field of this description.
    pub open spec fn as_builder(self) -> SignalSpecBuilder {
        SignalSpecBuilder { sample_rate: Some(self.sample_rate), channels: Some(self.channels) }
    }

    /// The builder that holds every field of this description.
    pub fn into_builder(self) -> (b: SignalSpecBuilder)
        ensures
            b == self.as_builder(),
    {
        SignalSpecBuilder { sample_rate: Some(self.sample_rate), channels: Some(self.channels) }
    }

    /// A description is valid when its rate is positive and it has a channel.
    pub open spec fn is_valid_spec(self) -> bool {
        self.sample_rate > 0 && self.channels.count_spec() >= 1
    }

    /// Whether the rate is positive and there is at least one channel.
    pub fn is_valid(&self) -> (b: bool)
        ensures
            b == self.is_valid_spec(),
    {
        self.sample_rate > 0 && self.channels.count() >= 1
    }

    /// Whether both descriptions are equal.
    pub fn same(&self, other: &Self) -> (b: bool)
        ensures
            b == (*self == *other),
    {
        self.sample_rate == other.sample_rate && self.channels.same(&other.channels)
    }

    /// What `merge` returns: two full descriptions merge only when equal.
    pub open spec fn merge_result(self, other: Self) -> Result<(), PhonicError> {
        if self == other {
            Ok(())
        } else {
            Err(PhonicError::ParamMismatch)
        }
    }

    /// Checks that `other` describes the same signal. The description itself
    /// never changes: every field is already known.
    pub fn merge(&mut self, other: &Self) -> (r: Result<(), PhonicError>)
        ensures
            *final(self) == *old(self),
            r == old(self).merge_result(*other),
    {
        if self.same(other) {
            Ok(())
        } else {
            Err(PhonicError::ParamMismatch)
        }
    }

    /// This description, where `other` agrees with it.
    pub fn merged(self, other: &Self) -> (r: Result<Self, PhonicError>)
        ensures
            self == *other ==> r == Ok::<Self, PhonicError>(self),
            self != *other ==> r == Err::<Self, PhonicError>(PhonicError::ParamMismatch),
    {
        if self.same(other) {
            Ok(self)
        } else {
            Err(PhonicError::ParamMismatch)
        }
    }
}

impl SignalSpecBuilder {
    /// The builder with no field known.
    pub open spec fn empty() -> Self {
        SignalSpecBuilder { sample_rate: None, channels: None }
    }

    /// A builder with no field known.
    pub fn new() -> (b: Self)
        ensures
            b == Self::empty(),
    {
        SignalSpecBuilder { sample_rate: None, channels: None }
    }

    /// Sets the sample rate.
    pub fn with_sample_rate(self, sample_rate: u32) -> (b: Self)
        ensures
            b == (SignalSpecBuilder { sample_rate: Some(sample_rate), ..self }),
    {
        SignalSpecBuilder { sample_rate: Some(sample_rate), channels: self.channels }
    }

    /// Sets the channel layout.
    pub fn with_channels(self, channels: ChannelLayout) -> (b: Self)
        ensures
            b == (SignalSpecBuilder { channels: Some(channels), ..self }),
    {
        SignalSpecBuilder { sample_rate: self.sample_rate, channels: Some(channels) }
    }

    /// Every field is known.
    pub open spec fn is_full_spec(self) -> bool {
        self.sample_rate is Some && self.channels is Some
    }

    /// Whether every field is known.
    pub fn is_full(&self) -> (b: bool)
        ensures
            b == self.is_full_spec(),
    {
        self.sample_rate.is_some() && self.channels.is_some()
    }

    /// No field is known.
    pub open spec fn is_empty_spec(self) -> bool {
        self.sample_rate is None && self.channels is None
    }

    /// Whether no field is known.
    pub fn is_empty(&self) -> (b: bool)
        ensures
            b == self.is_empty_spec(),
    {
        self.sample_rate.is_none() && self.channels.is_none()
    }

    /// The builder that `merge` leaves behind. Fields are merged in order,
    /// the rate first, and merging stops at the first field on which the two
    /// disagree: what was taken over before stays.
    pub open spec fn merge_state(self, other: Self) -> Self {
        match merge_field(self.sample_rate, other.sample_rate) {
            None => self,
            Some(sample_rate) => match merge_field(self.channels, other.channels) {
                None => SignalSpecBuilder { sample_rate, ..self },
                Some(channels) => SignalSpecBuilder { sample_rate, channels },
            },
        }
    }

    /// The two builders agree on every field that both know.
    pub open spec fn agrees_with(self, other: Self) -> bool {
        merge_field(self.sample_rate, other.sample_rate) is Some && merge_field(
            self.channels,
            other.channels,
        ) is Some
    }

    /// What `merge` returns.
    pub open spec fn merge_result(self, other: Self) -> Result<(), PhonicError> {
        if self.agrees_with(other) {
            Ok(())
        } else {
            Err(PhonicError::ParamMismatch)
        }
    }

    /// Takes over every field that `other` knows and this builder does not.
    /// Fails with `ParamMismatch` where both know a field and differ.
    pub fn merge(&mut self, other: &Self) -> (r: Result<(), PhonicError>)
        ensures
            *final(self) == old(self).merge_state(*other),
            r == old(self).merge_result(*other),
    {
        match other.sample_rate {
            Some(rate) => match self.sample_rate {
                Some(mine) => {
                    if mine != rate {
                        return Err(PhonicError::ParamMismatch);
                    }
                },
                None => {
                    self.sample_rate = Some(rate);
                },
            },
            None => {},
        }
        match other.channels {
            Some(channels) => match self.channels {
                Some(mine) => {
                    if !mine.same(&channels) {
                        return Err(PhonicError::ParamMismatch);
                    }
                },
                None => {
                    self.channels = Some(channels);
                },
            },
            None => {},
        }
        Ok(())
    }

    /// The merge of the two builders, where they agree.
    pub fn merged(self, other: &Self) -> (r: Result<Self, PhonicError>)
        ensures
            self.agrees_with(*other) ==> r == Ok::<Self, PhonicError>(self.merge_state(*other)),
            !self.agrees_with(*other) ==> r == Err::<Self, PhonicError>(
                PhonicError::ParamMismatch,
            ),
    {
        let mut merged = self;
        match merged.merge(other) {
            Ok(()) => Ok(merged),
            Err(e) => Err(e),
        }
    }

    /// What `build` returns: the full description, or `MissingData` where a
    /// field is unknown.
    pub open spec fn build_spec(self) -> Result<SignalSpec, PhonicError> {
        if self.is_full_spec() {
            Ok(SignalSpec { sample_rate: self.sample_rate->0, channels: self.channels->0 })
        } else {
            Err(PhonicError::MissingData)
        }
    }

    /// The full description, where every field is known.
    pub fn build(self) -> (r: Result<SignalSpec, PhonicError>)
        ensures
            r == self.build_spec(),
    {
        match (self.sample_rate, self.channels) {
            (Some(sample_rate), Some(channels)) => Ok(SignalSpec { sample_rate, channels }),
            _ => Err(PhonicError::MissingData),
        }
    }
}

impl From<SignalSpec> for SignalSpecBuilder {
    fn from(spec: SignalSpec) -> (b: Self) {
        spec.into_builder()
    }
}

impl vstd::std_specs::convert::FromSpecImpl<SignalSpec> for SignalSpecBuilder {
    open spec fn obeys_from_spec() -> bool {
        true
    }

    open spec fn from_spec(spec: SignalSpec) -> Self {
        spec.as_builder()
    }
}

impl TryFrom<SignalSpecBuilder> for SignalSpec {
    type Error = PhonicError;

    fn try_from(spec: SignalSpecBuilder) -> (r: Result<SignalSpec, PhonicError>) {
        spec.build()
    }
}

impl vstd::std_specs::convert::TryFromSpecImpl<SignalSpecBuilder> for SignalSpec {
    open spec fn obeys_try_from_spec() -> bool {
        true
    }

    open spec fn try_from_spec(spec: SignalSpecBuilder) -> Result<Self, PhonicError> {
        spec.build_spec()
    }
}

impl Default for SignalSpecBuilder {
    fn default() -> (b: Self)
        ensures
            b == Self::empty(),
    {
        SignalSpecBuilder::new()
    }
}

} // verus!
