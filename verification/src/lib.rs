//! Capability traits, stream and signal descriptions, duration units and
//! composition adapters for audio I/O.
//!
//! A *signal* is a source or sink of decoded samples, a *stream* one of
//! encoded bytes, and a *format* a container that multiplexes streams. Every
//! capability (position, length, reading, writing, seeking) is a trait of its
//! own, and the adapters re-expose whichever capabilities the wrapped value
//! has.

pub mod error;
pub mod layout;
pub mod signal_spec;
pub mod codec;
pub mod stream_spec;
pub mod signal;
pub mod observe;
pub mod signal_list;
pub mod concat;
pub mod duration;
pub mod stream;
pub mod format;
pub mod stream_selector;
pub mod transport;
pub mod wave;
pub mod pcm;

pub use crate::codec::{CodecTag, SyphonCodec, Tag};
pub use crate::concat::Concat;
pub use crate::duration::{
    FromStreamDuration, IntoStreamDuration, NBlocks, NBytes, NFrames, NSamples, StreamDuration,
};
pub use crate::error::{PhonicError, PhonicResult};
pub use crate::format::{
    BlockingFormat, FiniteFormat, Format, FormatDataBuilder, FormatIdentifier, FormatIdentifiers,
    FormatReader, FormatSeeker, FormatTag, FormatWriter, IndexedFormat, SyphonFormat,
};
pub use crate::layout::{ChannelLayout, SampleFormat, TypeLayout};
pub use crate::observe::{Observer, SignalEvent};
pub use crate::pcm::{PcmDecoder, PcmSample, SampleReaderRef};
pub use crate::signal::{
    FiniteSignal, IndexedSignal, Signal, SignalReader, SignalSeeker, SignalWriter,
};
pub use crate::signal_list::{
    FiniteSignalList, IndexedSignalList, SignalList, SignalReaderList, SignalSeekerList,
    SignalWriterList,
};
pub use crate::signal_spec::{SignalSpec, SignalSpecBuilder};
pub use crate::stream::{
    BlockingStream, FiniteStream, IndexedStream, Stream, StreamReader, StreamSeeker, StreamWriter,
};
pub use crate::stream_selector::StreamSelector;
pub use crate::stream_spec::{StreamSpec, StreamSpecBuilder};
pub use crate::transport::{ByteSink, ByteSource};
pub use crate::wave::{fill_wave_data, Wave, WaveData, WaveFmt, WaveHeader};
