use phonic::{
    ChannelLayout, FromStreamDuration, IntoStreamDuration, NBlocks, NBytes, NFrames, NSamples,
    SignalSpec, StreamDuration, StreamSpec, SyphonCodec, TypeLayout,
};

fn spec(block_align: usize, channel_mask: u32) -> StreamSpec<SyphonCodec> {
    StreamSpec {
        codec: SyphonCodec::Pcm,
        avg_byte_rate: 176_400,
        block_align,
        sample_layout: TypeLayout::of::<i16>(),
        decoded_spec: SignalSpec {
            sample_rate: 44100,
            channels: ChannelLayout::from_mask(channel_mask),
        },
    }
}

fn is_stream_duration<T: StreamDuration>(_: T) -> bool {
    true
}

#[test]
fn blocks_to_bytes_and_back_is_exact() {
    let spec = spec(4, 0b11);
    let bytes = NBytes::from_stream_duration(NBlocks::from(10), &spec);
    assert_eq!(bytes, NBytes::from(40));
    assert_eq!(bytes.get(), 40);
    let blocks = NBlocks::from_stream_duration(bytes, &spec);
    assert_eq!(blocks, NBlocks::from(10));
    assert_eq!(blocks.get(), 10);
}

#[test]
fn round_trip_for_other_block_sizes() {
    for align in [1usize, 2, 3, 4, 6, 8, 192, 4096] {
        let spec = spec(align, 0b1);
        for n in [0u64, 1, 7, 10, 1000] {
            let bytes: NBytes = NBlocks::from(n).into_stream_duration(&spec);
            assert_eq!(bytes.get(), n * align as u64);
            let blocks: NBlocks = bytes.into_stream_duration(&spec);
            assert_eq!(blocks.get(), n);
        }
    }
}

#[test]
fn bytes_inside_a_block_are_not_converted() {
    let spec = spec(4, 0b11);
    assert_eq!(NBlocks::checked_from_bytes(NBytes::from(41), &spec), None);
    assert_eq!(NBlocks::checked_from_bytes(NBytes::from(43), &spec), None);
    assert_eq!(NBlocks::checked_from_bytes(NBytes::from(40), &spec), Some(NBlocks::from(10)));
    assert_eq!(NBlocks::checked_from_bytes(NBytes::from(44), &spec), Some(NBlocks::from(11)));
    assert_eq!(NBlocks::checked_from_bytes(NBytes::from(0), &spec), Some(NBlocks::from(0)));
}

#[test]
fn blocks_of_no_bytes_are_not_converted() {
    let spec = spec(0, 0b11);
    assert_eq!(NBlocks::checked_from_bytes(NBytes::from(40), &spec), None);
    assert_eq!(NBlocks::checked_from_bytes(NBytes::from(0), &spec), None);
    assert_eq!(NBytes::checked_from_blocks(NBlocks::from(40), &spec), Some(NBytes::from(0)));
}

#[test]
fn bytes_that_do_not_fit_are_not_converted() {
    let spec = spec(4, 0b11);
    assert_eq!(NBytes::checked_from_blocks(NBlocks::from(u64::MAX), &spec), None);
    assert_eq!(NBytes::checked_from_blocks(NBlocks::from(u64::MAX / 4 + 1), &spec), None);
    assert_eq!(
        NBytes::checked_from_blocks(NBlocks::from(u64::MAX / 4), &spec),
        Some(NBytes::from(u64::MAX - 3))
    );
    assert_eq!(NBytes::checked_from_blocks(NBlocks::from(10), &spec), Some(NBytes::from(40)));
}

#[test]
fn a_duration_converts_to_its_own_unit_unchanged() {
    let spec = spec(4, 0b11);
    assert_eq!(NBytes::from_stream_duration(NBytes::from(41), &spec), NBytes::from(41));
    assert_eq!(NBlocks::from_stream_duration(NBlocks::from(7), &spec), NBlocks::from(7));
    assert!(is_stream_duration(NBytes::from(1)));
    assert!(is_stream_duration(NBlocks::from(1)));
}

#[test]
fn frames_and_samples_convert_by_channel_count() {
    let stereo = spec(4, 0b11);
    assert_eq!(NSamples::from_stream_duration(NFrames::from(100), &stereo), NSamples::from(200));
    assert_eq!(NFrames::from_stream_duration(NSamples::from(200), &stereo), NFrames::from(100));
    let surround = spec(12, 0b11_1111);
    assert_eq!(NSamples::from_stream_duration(NFrames::from(5), &surround), NSamples::from(30));
    let frames: NFrames = NSamples::from(30).into_stream_duration(&surround);
    assert_eq!(frames.get(), 5);
}

#[test]
fn units_add_subtract_scale_and_divide() {
    let a = NBytes::from(40);
    let b = NBytes::from(8);
    assert_eq!(a + b, NBytes::from(48));
    assert_eq!(a - b, NBytes::from(32));
    assert_eq!(a * 3, NBytes::from(120));
    assert_eq!(a / b, 5);
    assert_eq!(a / 7, NBytes::from(5));
    assert_eq!(NBlocks::from(9) / NBlocks::from(2), 4);
    assert_eq!(NBlocks::from(9) + NBlocks::from(2), NBlocks::from(11));
    assert_eq!(NFrames::from(9) - NFrames::from(2), NFrames::from(7));
    assert_eq!(NSamples::from(9) * 2, NSamples::from(18));
    assert_eq!(NSamples::from(9) / 2, NSamples::from(4));
}

#[test]
fn units_are_ordered_by_count() {
    assert!(NBytes::from(1) < NBytes::from(2));
    assert!(NBlocks::from(3) > NBlocks::from(2));
    assert!(NFrames::from(3) >= NFrames::from(3));
    assert_ne!(NSamples::from(3), NSamples::from(4));
    assert_eq!(NBytes::from(5).max(NBytes::from(9)), NBytes::from(9));
}
