use phonic::{
    fill_wave_data, FormatDataBuilder, FormatIdentifier, PhonicError, StreamSpecBuilder,
    SyphonCodec, SyphonFormat, Tag,
};

#[test]
fn all_formats_are_listed() {
    assert_eq!(SyphonFormat::all(), &[SyphonFormat::Wave]);
}

#[test]
fn wave_identifiers_are_its_names() {
    let ids = SyphonFormat::Wave.identifiers();
    assert_eq!(ids.file_extensions, &["wav", "wave"]);
    assert_eq!(ids.mime_types, &["audio/vnd.wave", "audio/x-wav", "audio/wav", "audio/wave"]);
    assert_eq!(ids.markers, &[&b"RIFF"[..], &b"WAVE"[..]]);
}

#[test]
fn identifiers_contain_names_of_their_kind_only() {
    let ids = SyphonFormat::Wave.identifiers();
    assert!(ids.contains(&FormatIdentifier::FileExtension("wav")));
    assert!(ids.contains(&FormatIdentifier::FileExtension("wave")));
    assert!(ids.contains(&FormatIdentifier::MimeType("audio/wav")));
    assert!(ids.contains(&FormatIdentifier::MimeType("audio/vnd.wave")));
    assert!(!ids.contains(&FormatIdentifier::FileExtension("audio/wav")));
    assert!(!ids.contains(&FormatIdentifier::MimeType("wav")));
    assert!(!ids.contains(&FormatIdentifier::FileExtension("WAV")));
    assert!(!ids.contains(&FormatIdentifier::FileExtension("wa")));
    assert!(!ids.contains(&FormatIdentifier::FileExtension("wavx")));
    assert!(!ids.contains(&FormatIdentifier::FileExtension("")));
    assert!(!ids.contains(&FormatIdentifier::FileExtension("wäv")));
}

#[test]
fn format_is_found_by_identifier() {
    assert_eq!(
        SyphonFormat::try_from(&FormatIdentifier::FileExtension("wave")),
        Ok(SyphonFormat::Wave)
    );
    assert_eq!(
        SyphonFormat::try_from(&FormatIdentifier::MimeType("audio/x-wav")),
        Ok(SyphonFormat::Wave)
    );
    assert_eq!(
        SyphonFormat::try_from(&FormatIdentifier::FileExtension("mp3")),
        Err(PhonicError::Unsupported)
    );
    assert_eq!(
        SyphonFormat::try_from(&FormatIdentifier::MimeType("wav")),
        Err(PhonicError::Unsupported)
    );
}

#[test]
fn tags_are_the_same_as_themselves() {
    assert!(SyphonFormat::Wave.same(&SyphonFormat::Wave));
    assert!(SyphonCodec::Pcm.same(&SyphonCodec::Pcm));
}

#[test]
fn fill_wave_data_sets_the_codec_of_the_one_track() {
    let track = StreamSpecBuilder::<SyphonCodec>::new().with_block_align(4);
    let mut data = FormatDataBuilder::new().with_format(SyphonFormat::Wave).with_track(track);
    assert_eq!(fill_wave_data(&mut data), Ok(()));
    assert_eq!(data.format, Some(SyphonFormat::Wave));
    assert_eq!(data.tracks, vec![track.with_codec(SyphonCodec::Pcm)]);
    // a codec that is set already stays
    assert_eq!(fill_wave_data(&mut data), Ok(()));
    assert_eq!(data.tracks, vec![track.with_codec(SyphonCodec::Pcm)]);
}

#[test]
fn fill_wave_data_needs_exactly_one_track() {
    let mut none = FormatDataBuilder::new();
    assert_eq!(fill_wave_data(&mut none), Err(PhonicError::Unsupported));
    assert!(none.tracks.is_empty());
    assert_eq!(none.format, None);
    let track = StreamSpecBuilder::<SyphonCodec>::new();
    let mut two = FormatDataBuilder::new().with_track(track).with_track(track.with_block_align(2));
    assert_eq!(fill_wave_data(&mut two), Err(PhonicError::Unsupported));
    assert_eq!(two.tracks, vec![track, track.with_block_align(2)]);
}
