//! Codec tags: the values that say how a stream is encoded.

use vstd::prelude::*;
use crate::error::PhonicError;
use crate::signal_spec::SignalSpecBuilder;
use crate::stream_spec::{StreamSpec, StreamSpecBuilder};

verus! {

/// A value of a closed set of names, such as the codecs or the formats.
pub trait Tag: Sized + Copy + Eq + core::hash::Hash + core::fmt::Debug {
    /// Whether both tags are the same name.
    fn same(&self, other: &Self) -> (b: bool)
        ensures
            b == (*self == *other),
    ;
}

/// A tag that identifies an encoding.
///
/// A codec also knows which fields of a stream description follow from the
/// others.
pub trait CodecTag: Tag {
    /// What `infer_spec` returns for a builder.
    open spec fn inferred(spec: StreamSpecBuilder<Self>) -> Result<StreamSpec<Self>, PhonicError> {
        arbitrary()
    }

    /// Fills the fields that follow from those that are known, and builds
    /// the description.
    fn infer_spec(spec: StreamSpecBuilder<Self>) -> (r: Result<StreamSpec<Self>, PhonicError>)
        ensures
            r == Self::inferred(spec),
    ;
}

/// The codecs that this crate knows.
#[derive(Clone, Copy, Debug, PartialEq, Eq, Hash, Structural)]
pub enum SyphonCodec {
    /// Linear pulse-code modulation: samples stored as they are.
    Pcm,
}

/// The size in bytes of one PCM frame, one sample for every channel, where
/// sample layout and channels are known and the size can be held.
pub open spec fn pcm_frame_size(spec: StreamSpecBuilder<SyphonCodec>) -> Option<usize> {
    match (spec.sample_layout, spec.decoded_spec.channels) {
        (Some(layout), Some(channels)) => if layout.size * channels.count_spec() <= usize::MAX {
            Some((layout.size * channels.count_spec()) as usize)
        } else {
            None
        },
        _ => None,
    }
}

/// The byte rate of PCM: the frame size times the sample rate, where both
/// are known and the rate can be held.
pub open spec fn pcm_byte_rate(spec: StreamSpecBuilder<SyphonCodec>) -> Option<u32> {
    match (pcm_frame_size(spec), spec.decoded_spec.sample_rate) {
        (Some(frame), Some(rate)) => if frame * rate <= u32::MAX {
            Some((frame * rate) as u32)
        } else {
            None
        },
        _ => None,
    }
}

/// What PCM itself says of a stream of which `spec` is known: its codec, and
/// the block size and byte rate that follow from the decoded signal.
pub open spec fn pcm_known(spec: StreamSpecBuilder<SyphonCodec>) -> StreamSpecBuilder<
    SyphonCodec,
> {
    StreamSpecBuilder {
        codec: Some(SyphonCodec::Pcm),
        avg_byte_rate: pcm_byte_rate(spec),
        block_align: pcm_frame_size(spec),
        sample_layout: None,
        decoded_spec: SignalSpecBuilder::empty(),
    }
}

/// What inference gives for PCM: `spec` merged with what PCM says of it, and
/// built. A byte rate or block size that contradicts the decoded signal
/// gives `ParamMismatch`, a field that is still unknown `MissingData`.
pub open spec fn pcm_inferred(spec: StreamSpecBuilder<SyphonCodec>) -> Result<
    StreamSpec<SyphonCodec>,
    PhonicError,
> {
    match spec.merged_spec(pcm_known(spec)) {
        Ok(merged) => merged.build_spec(),
        Err(e) => Err(e),
    }
}

/// Fills the fields of a PCM stream that follow from its decoded signal, and
/// builds the description.
pub fn infer_pcm_spec(spec: StreamSpecBuilder<SyphonCodec>) -> (r: Result<
    StreamSpec<SyphonCodec>,
    PhonicError,
>)
    ensures
        r == pcm_inferred(spec),
{
    let frame: Option<usize> = match (spec.sample_layout, spec.decoded_spec.channels) {
        (Some(layout), Some(channels)) => {
            let count: u32 = channels.count();
            layout.size.checked_mul(count as usize)
        },
        _ => None,
    };
    let byte_rate: Option<u32> = match (frame, spec.decoded_spec.sample_rate) {
        (Some(frame), Some(rate)) => {
            if rate == 0 {
                assert(frame * rate == 0) by (nonlinear_arith)
                    requires
                        rate == 0,
                ;
                Some(0)
            } else if frame > 0xffff_ffff {
                assert(frame * rate > u32::MAX) by (nonlinear_arith)
                    requires
                        rate >= 1,
                        frame > 0xffff_ffff,
                ;
                None
            } else {
                let small: u32 = frame as u32;
                small.checked_mul(rate)
            }
        },
        _ => None,
    };
    let known = StreamSpecBuilder {
        codec: Some(SyphonCodec::Pcm),
        avg_byte_rate: byte_rate,
        block_align: frame,
        sample_layout: None,
        decoded_spec: SignalSpecBuilder::new(),
    };
    match spec.merged(&known) {
        Ok(merged) => merged.build(),
        Err(e) => Err(e),
    }
}

impl Tag for SyphonCodec {
    fn same(&self, other: &Self) -> (b: bool) {
        match (self, other) {
            (SyphonCodec::Pcm, SyphonCodec::Pcm) => true,
        }
    }
}

impl CodecTag for SyphonCodec {
    open spec fn inferred(spec: StreamSpecBuilder<Self>) -> Result<StreamSpec<Self>, PhonicError> {
        match spec.codec {
            None | Some(SyphonCodec::Pcm) => pcm_inferred(spec),
        }
    }

    fn infer_spec(spec: StreamSpecBuilder<Self>) -> (r: Result<StreamSpec<Self>, PhonicError>) {
        match spec.codec {
            None | Some(SyphonCodec::Pcm) => infer_pcm_spec(spec),
        }
    }
}

} // verus!
