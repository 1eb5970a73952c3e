//! Containers that hold one or more streams, and the tags that name them.
//!
//! The spec functions of these traits have defaults, as those of the signal
//! traits have, and for the same reason.

use vstd::prelude::*;
use crate::codec::{CodecTag, SyphonCodec, Tag};
use crate::error::PhonicError;
use crate::stream_spec::{StreamSpec, StreamSpecBuilder};

verus! {

/// A closed set of values that identify a container format.
pub trait FormatTag: Tag {
    /// The tags of the codecs that the format can hold.
    type Codec: CodecTag;
}

/// A container of streams, each addressed by its position.
pub trait Format: Sized {
    /// The type that names the format.
    type Tag: FormatTag;

    /// The descriptions of the streams, in order.
    open spec fn streams_of(&self) -> Seq<StreamSpec<<Self::Tag as FormatTag>::Codec>> {
        arbitrary()
    }

    /// The descriptions of the streams, in order. They never change.
    fn streams(&self) -> (s: &[StreamSpec<<Self::Tag as FormatTag>::Codec>])
        ensures
            s@ == self.streams_of(),
    ;
}

/// A format whose operations may hold the calling thread until data is there.
pub trait BlockingFormat: Format {
    /// Waits until the format is ready.
    fn block(&self);
}

/// A format whose streams know where they stand.
pub trait IndexedFormat: Format {
    /// The position of the stream at `stream`, in bytes.
    open spec fn stream_pos_of(&self, stream: usize) -> nat {
        arbitrary()
    }

    /// The position of the stream at `stream`, in bytes.
    fn stream_pos(&self, stream: usize) -> (p: u64)
        requires
            self.stream_pos_of(stream) <= u64::MAX,
        ensures
            p == self.stream_pos_of(stream),
    ;
}

/// A format whose streams end.
pub trait FiniteFormat: Format {
    /// The length of the stream at `stream`, in bytes.
    open spec fn stream_len_of(&self, stream: usize) -> nat {
        arbitrary()
    }

    /// The length of the stream at `stream`, in bytes.
    fn stream_len(&self, stream: usize) -> (n: u64)
        requires
            self.stream_len_of(stream) <= u64::MAX,
        ensures
            n == self.stream_len_of(stream),
    ;
}

/// A format to read from. Its streams are interleaved: each read serves the
/// stream that comes next in the container, and says which one it was.
pub trait FormatReader: Format {
    /// What one `read` may do: from the format `pre` and a buffer that holds
    /// `buf_pre` it may leave `post` and `buf_post`, and return `r`: the
    /// stream that was served and the number of bytes.
    open spec fn reads(
        pre: Self,
        buf_pre: Seq<u8>,
        post: Self,
        buf_post: Seq<u8>,
        r: Result<(usize, usize), PhonicError>,
    ) -> bool {
        true
    }

    /// A bound on how many reads in a row can still serve other streams
    /// before one either serves the stream at `stream` or fails.
    open spec fn patience(&self, stream: usize) -> nat {
        arbitrary()
    }

    /// Reads bytes of the next stream into a prefix of `buf`, and returns
    /// the position of that stream and the number of bytes.
    ///
    /// Every read that serves one stream brings each other stream of the
    /// format nearer to its turn: no stream waits for ever. A stream that
    /// has ended still gets its turns, each with a count of zero.
    fn read(&mut self, buf: &mut [u8]) -> (r: Result<(usize, usize), PhonicError>)
        ensures
            Self::reads(*old(self), old(buf)@, *final(self), final(buf)@, r),
            final(self).streams_of() == old(self).streams_of(),
            final(buf)@.len() == old(buf)@.len(),
            r matches Ok((_, n)) ==> n <= old(buf)@.len(),
            r matches Ok((served, _)) ==> forall|stream: usize|
                stream != served && stream < old(self).streams_of().len()
                    ==> final(self).patience(stream) < #[trigger] old(self).patience(stream),
    ;
}

/// A format to write to.
pub trait FormatWriter: Format {
    /// What one `write` of the bytes `buf` to the stream at `stream` may do.
    open spec fn writes(
        pre: Self,
        stream: usize,
        buf: Seq<u8>,
        post: Self,
        r: Result<usize, PhonicError>,
    ) -> bool {
        true
    }

    /// What one `flush` may do.
    open spec fn flushes(pre: Self, post: Self, r: Result<(), PhonicError>) -> bool {
        true
    }

    /// Writes a prefix of `buf` to the stream at `stream`.
    fn write(&mut self, stream: usize, buf: &[u8]) -> (r: Result<usize, PhonicError>)
        ensures
            Self::writes(*old(self), stream, buf@, *final(self), r),
            final(self).streams_of() == old(self).streams_of(),
            r matches Ok(n) ==> n <= buf@.len(),
    ;

    /// Hands on everything that was written to any stream and is still held
    /// back.
    fn flush(&mut self) -> (r: Result<(), PhonicError>)
        ensures
            Self::flushes(*old(self), *final(self), r),
            final(self).streams_of() == old(self).streams_of(),
    ;
}

/// A format whose streams can be repositioned.
pub trait FormatSeeker: Format {
    /// What one `seek` of the stream at `stream` by `offset` bytes may do.
    open spec fn seeks(
        pre: Self,
        stream: usize,
        offset: i64,
        post: Self,
        r: Result<(), PhonicError>,
    ) -> bool {
        true
    }

    /// Moves the position of the stream at `stream` by `offset` bytes.
    fn seek(&mut self, stream: usize, offset: i64) -> (r: Result<(), PhonicError>)
        ensures
            Self::seeks(*old(self), stream, offset, *final(self), r),
            final(self).streams_of() == old(self).streams_of(),
    ;
}

/// The container formats that this crate knows.
#[derive(Eq, PartialEq, Copy, Clone, Hash, Debug, Structural)]
pub enum SyphonFormat {
    /// RIFF WAVE.
    Wave,
}

impl Tag for SyphonFormat {
    fn same(&self, other: &Self) -> (b: bool) {
        match (self, other) {
            (SyphonFormat::Wave, SyphonFormat::Wave) => true,
        }
    }
}

impl FormatTag for SyphonFormat {
    type Codec = SyphonCodec;
}

/// The names and markers by which a format is recognised.
pub struct FormatIdentifiers {
    /// File name extensions, without the dot.
    pub file_extensions: &'static [&'static str],
    /// Media types.
    pub mime_types: &'static [&'static str],
    /// Byte strings found at the start of the data.
    pub markers: &'static [&'static [u8]],
}

/// One name of a format.
#[derive(Clone, Copy, Debug, PartialEq, Eq)]
pub enum FormatIdentifier<'a> {
    /// A file name extension, without the dot.
    FileExtension(&'a str),
    /// A media type.
    MimeType(&'a str),
}

/// Whether two strings hold the same text.
pub fn same_text(a: &str, b: &str) -> (same: bool)
    ensures
        same == (a@ == b@),
{
    let x = a.as_bytes();
    let y = b.as_bytes();
    proof {
        vstd::utf8::encode_utf8_decode_utf8(a@);
        vstd::utf8::encode_utf8_decode_utf8(b@);
    }
    if x.len() != y.len() {
        return false;
    }
    let mut i: usize = 0;
    while i < x.len()
        invariant
            i <= x@.len() == y@.len(),
            a@ == b@ ==> x@ == y@,
            forall|j: int| 0 <= j < i ==> x@[j] == y@[j],
        decreases x@.len() - i,
    {
        if x[i] != y[i] {
            assert(x@[i as int] != y@[i as int]);
            return false;
        }
        i = i + 1;
    }
    assert(x@ =~= y@);
    true
}

/// One of `names` holds the text `name`.
pub open spec fn names_hold(names: Seq<&'static str>, name: Seq<char>) -> bool {
    exists|i: int| 0 <= i < names.len() && (#[trigger] names[i])@ == name
}

/// Whether one of `names` holds the text of `name`.
pub fn holds_name(names: &[&'static str], name: &str) -> (found: bool)
    ensures
        found == names_hold(names@, name@),
{
    let mut i: usize = 0;
    while i < names.len()
        invariant
            i <= names@.len(),
            forall|j: int| 0 <= j < i ==> (#[trigger] names@[j])@ != name@,
        decreases names@.len() - i,
    {
        if same_text(names[i], name) {
            return true;
        }
        i = i + 1;
    }
    false
}

impl FormatIdentifiers {
    /// The identifier is among these names: an extension among the
    /// extensions, a media type among the media types.
    pub open spec fn contains_spec(self, identifier: FormatIdentifier) -> bool {
        match identifier {
            FormatIdentifier::FileExtension(ext) => names_hold(self.file_extensions@, ext@),
            FormatIdentifier::MimeType(mime) => names_hold(self.mime_types@, mime@),
        }
    }

    /// Whether the identifier is among these names.
    pub fn contains(&self, identifier: &FormatIdentifier) -> (found: bool)
        ensures
            found == self.contains_spec(*identifier),
    {
        match identifier {
            FormatIdentifier::FileExtension(ext) => holds_name(self.file_extensions, ext),
            FormatIdentifier::MimeType(mime) => holds_name(self.mime_types, mime),
        }
    }
}

impl SyphonFormat {
    /// The file name extensions of this format, without the dot.
    pub open spec fn file_extensions(self) -> Seq<&'static str> {
        match self {
            SyphonFormat::Wave => seq!["wav", "wave"],
        }
    }

    /// The media types of this format.
    pub open spec fn mime_types(self) -> Seq<&'static str> {
        match self {
            SyphonFormat::Wave => seq!["audio/vnd.wave", "audio/x-wav", "audio/wav", "audio/wave"],
        }
    }

    /// The byte strings found at the start of data of this format: for
    /// WAVE, the texts `RIFF` and `WAVE`.
    pub open spec fn markers(self) -> Seq<Seq<u8>> {
        match self {
            SyphonFormat::Wave => seq![
                seq![0x52u8, 0x49u8, 0x46u8, 0x46u8],
                seq![0x57u8, 0x41u8, 0x56u8, 0x45u8],
            ],
        }
    }

    /// The identifier is one of the names of this format.
    pub open spec fn is_named(self, identifier: FormatIdentifier) -> bool {
        match identifier {
            FormatIdentifier::FileExtension(ext) => names_hold(self.file_extensions(), ext@),
            FormatIdentifier::MimeType(mime) => names_hold(self.mime_types(), mime@),
        }
    }

    /// The format that an identifier names: the first one, in the order of
    /// `all`, that has it among its names. `Unsupported` where none has.
    pub open spec fn named_by(identifier: FormatIdentifier) -> Result<SyphonFormat, PhonicError> {
        if SyphonFormat::Wave.is_named(identifier) {
            Ok(SyphonFormat::Wave)
        } else {
            Err(PhonicError::Unsupported)
        }
    }

    /// Every format, in the order in which they are tried.
    pub fn all() -> (formats: &'static [Self])
        ensures
            formats@ == seq![SyphonFormat::Wave],
    {
        let formats: &'static [SyphonFormat] = &[SyphonFormat::Wave];
        formats
    }

    /// The names and markers of this format.
    pub fn identifiers(&self) -> (ids: FormatIdentifiers)
        ensures
            ids.file_extensions@ == self.file_extensions(),
            ids.mime_types@ == self.mime_types(),
            ids.markers@.len() == self.markers().len(),
            forall|i: int|
                0 <= i < ids.markers@.len() ==> (#[trigger] ids.markers@[i])@ == self.markers()[i],
            forall|identifier: FormatIdentifier|
                #[trigger] ids.contains_spec(identifier) == self.is_named(identifier),
    {
        match self {
            SyphonFormat::Wave => crate::wave::wave_identifiers(),
        }
    }
}

impl<'a> TryFrom<&FormatIdentifier<'a>> for SyphonFormat {
    type Error = PhonicError;

    fn try_from(id: &FormatIdentifier<'a>) -> (r: Result<Self, PhonicError>) {
        let formats = SyphonFormat::all();
        let mut i: usize = 0;
        while i < formats.len()
            invariant
                formats@ == seq![SyphonFormat::Wave],
                i <= formats@.len(),
                forall|j: int| 0 <= j < i ==> !(#[trigger] formats@[j]).is_named(*id),
            decreases formats@.len() - i,
        {
            let format: SyphonFormat = formats[i];
            if format.identifiers().contains(id) {
                return Ok(format);
            }
            i = i + 1;
        }
        assert(!formats@[0].is_named(*id));
        Err(PhonicError::Unsupported)
    }
}

impl<'a> vstd::std_specs::convert::TryFromSpecImpl<&FormatIdentifier<'a>> for SyphonFormat {
    open spec fn obeys_try_from_spec() -> bool {
        true
    }

    open spec fn try_from_spec(id: &FormatIdentifier<'a>) -> Result<Self, PhonicError> {
        SyphonFormat::named_by(*id)
    }
}

/// What is known of a container before it is written: its format and the
/// streams it is to hold.
pub struct FormatDataBuilder {
    /// The format, where known.
    pub format: Option<SyphonFormat>,
    /// What is known of each stream, in order.
    pub tracks: Vec<StreamSpecBuilder<SyphonCodec>>,
}

impl FormatDataBuilder {
    /// A builder with no format and no stream.
    pub fn new() -> (b: Self)
        ensures
            b.format is None,
            b.tracks@ == Seq::<StreamSpecBuilder<SyphonCodec>>::empty(),
    {
        FormatDataBuilder { format: None, tracks: Vec::new() }
    }

    /// Sets the format.
    pub fn with_format(self, format: SyphonFormat) -> (b: Self)
        ensures
            b.format == Some(format),
            b.tracks == self.tracks,
    {
        FormatDataBuilder { format: Some(format), tracks: self.tracks }
    }

    /// Adds a stream after those that are there.
    pub fn with_track(self, track: StreamSpecBuilder<SyphonCodec>) -> (b: Self)
        ensures
            b.format == self.format,
            b.tracks@ == self.tracks@.push(track),
    {
        let mut tracks = self.tracks;
        tracks.push(track);
        FormatDataBuilder { format: self.format, tracks }
    }
}

} // verus!
