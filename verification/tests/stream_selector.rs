use phonic::{
    BlockingFormat, BlockingStream, ChannelLayout, FiniteFormat, FiniteStream, Format,
    FormatReader, FormatSeeker, FormatWriter, IndexedFormat, IndexedStream, PhonicError,
    SignalSpec, Stream, StreamReader, StreamSeeker, StreamSelector, StreamSpec, StreamWriter,
    SyphonCodec, SyphonFormat, TypeLayout,
};
use std::cell::Cell;

fn track(block_align: usize) -> StreamSpec<SyphonCodec> {
    StreamSpec {
        codec: SyphonCodec::Pcm,
        avg_byte_rate: 8000,
        block_align,
        sample_layout: TypeLayout::of::<u8>(),
        decoded_spec: SignalSpec { sample_rate: 8000, channels: ChannelLayout::from_mask(1) },
    }
}

/// A format whose packets are listed in the order in which reads serve them.
struct Interleaved {
    streams: Vec<StreamSpec<SyphonCodec>>,
    packets: Vec<Result<(usize, Vec<u8>), PhonicError>>,
    next: usize,
    written: Vec<(usize, Vec<u8>)>,
    seeks: Vec<(usize, i64)>,
    flushes: usize,
    blocks: Cell<usize>,
}

fn interleaved(packets: Vec<Result<(usize, Vec<u8>), PhonicError>>) -> Interleaved {
    Interleaved {
        streams: vec![track(1), track(2)],
        packets,
        next: 0,
        written: Vec::new(),
        seeks: Vec::new(),
        flushes: 0,
        blocks: Cell::new(0),
    }
}

impl Format for Interleaved {
    type Tag = SyphonFormat;

    fn streams(&self) -> &[StreamSpec<SyphonCodec>] {
        &self.streams
    }
}

impl BlockingFormat for Interleaved {
    fn block(&self) {
        self.blocks.set(self.blocks.get() + 1);
    }
}

impl IndexedFormat for Interleaved {
    fn stream_pos(&self, stream: usize) -> u64 {
        self.packets[..self.next]
            .iter()
            .map(|p| match p {
                Ok((i, bytes)) if *i == stream => bytes.len() as u64,
                _ => 0,
            })
            .sum()
    }
}

impl FiniteFormat for Interleaved {
    fn stream_len(&self, stream: usize) -> u64 {
        self.packets
            .iter()
            .map(|p| match p {
                Ok((i, bytes)) if *i == stream => bytes.len() as u64,
                _ => 0,
            })
            .sum()
    }
}

impl FormatReader for Interleaved {
    fn read(&mut self, buf: &mut [u8]) -> Result<(usize, usize), PhonicError> {
        match self.packets.get(self.next) {
            None => Ok((self.streams.len() - 1, 0)),
            Some(Err(e)) => Err(*e),
            Some(Ok((stream, bytes))) => {
                let n = bytes.len().min(buf.len());
                buf[..n].copy_from_slice(&bytes[..n]);
                self.next += 1;
                Ok((*stream, n))
            }
        }
    }
}

impl FormatWriter for Interleaved {
    fn write(&mut self, stream: usize, buf: &[u8]) -> Result<usize, PhonicError> {
        if buf.len() > 4 {
            return Err(PhonicError::Io(28));
        }
        self.written.push((stream, buf.to_vec()));
        Ok(buf.len())
    }

    fn flush(&mut self) -> Result<(), PhonicError> {
        self.flushes += 1;
        Ok(())
    }
}

impl FormatSeeker for Interleaved {
    fn seek(&mut self, stream: usize, offset: i64) -> Result<(), PhonicError> {
        if offset > 100 {
            return Err(PhonicError::BadRequest);
        }
        self.seeks.push((stream, offset));
        Ok(())
    }
}

fn alternating() -> Interleaved {
    interleaved(vec![
        Ok((0, vec![1, 2])),
        Ok((1, vec![10, 11, 12])),
        Ok((0, vec![3])),
        Ok((1, vec![13])),
        Ok((0, vec![4, 5, 6])),
        Ok((1, vec![14, 15])),
    ])
}

fn drain(selector: &mut StreamSelector<Interleaved>) -> Vec<u8> {
    let mut all = Vec::new();
    let mut buf = [0u8; 8];
    loop {
        match selector.read(&mut buf) {
            Ok(0) => break,
            Ok(n) => all.extend_from_slice(&buf[..n]),
            Err(e) => panic!("read failed: {:?}", e),
        }
    }
    all
}

#[test]
fn selector_returns_only_its_track_in_order() {
    let mut one = StreamSelector::new(alternating(), 1);
    let mut buf = [0u8; 8];
    assert_eq!(one.read(&mut buf), Ok(3));
    assert_eq!(&buf[..3], &[10, 11, 12]);
    assert_eq!(one.read(&mut buf), Ok(1));
    assert_eq!(&buf[..1], &[13]);
    assert_eq!(one.read(&mut buf), Ok(2));
    assert_eq!(&buf[..2], &[14, 15]);
    assert_eq!(one.read(&mut buf), Ok(0));
}

#[test]
fn selector_drops_the_bytes_of_other_tracks() {
    let mut one = StreamSelector::new(alternating(), 1);
    assert_eq!(drain(&mut one), vec![10, 11, 12, 13, 14, 15]);
    // what was read of track 0 on the way is gone
    let mut zero = StreamSelector::new(
        interleaved(vec![
            Ok((1, vec![9])),
            Ok((0, vec![1, 2])),
            Ok((1, vec![8])),
            Ok((1, Vec::new())),
            Ok((0, vec![3])),
        ]),
        0,
    );
    let mut buf = [0u8; 8];
    assert_eq!(zero.read(&mut buf), Ok(2));
    assert_eq!(zero.read(&mut buf), Ok(1));
    assert_eq!(&buf[..1], &[3]);
}

#[test]
fn selector_takes_a_zero_count_of_its_own_track() {
    let mut one = StreamSelector::new(
        interleaved(vec![Ok((0, vec![1])), Ok((1, Vec::new())), Ok((1, vec![5]))]),
        1,
    );
    let mut buf = [0u8; 8];
    assert_eq!(one.read(&mut buf), Ok(0));
    assert_eq!(one.read(&mut buf), Ok(1));
}

#[test]
fn selector_hands_errors_on() {
    let mut one = StreamSelector::new(
        interleaved(vec![Ok((0, vec![1])), Err(PhonicError::Io(5)), Ok((1, vec![5]))]),
        1,
    );
    let mut buf = [0u8; 8];
    assert_eq!(one.read(&mut buf), Err(PhonicError::Io(5)));
    let mut zero = StreamSelector::new(
        interleaved(vec![Ok((0, vec![1])), Err(PhonicError::Unsupported)]),
        0,
    );
    assert_eq!(zero.read(&mut buf), Ok(1));
    assert_eq!(zero.read(&mut buf), Err(PhonicError::Unsupported));
}

#[test]
fn selector_captures_the_spec_of_its_track() {
    let zero = StreamSelector::new(alternating(), 0);
    assert_eq!(*zero.stream_spec(), track(1));
    let one = StreamSelector::new(alternating(), 1);
    assert_eq!(*one.stream_spec(), track(2));
}

#[test]
fn selector_try_new_checks_the_track() {
    assert!(StreamSelector::try_new(alternating(), 1).is_ok());
    match StreamSelector::try_new(alternating(), 2) {
        Ok(_) => panic!("there is no third track"),
        Err(format) => assert_eq!(format.streams.len(), 2),
    }
}

#[test]
fn selector_position_and_length_are_those_of_its_track() {
    let mut one = StreamSelector::new(alternating(), 1);
    assert_eq!(one.len(), 6);
    assert_eq!(one.pos(), 0);
    let mut buf = [0u8; 8];
    assert_eq!(one.read(&mut buf), Ok(3));
    assert_eq!(one.pos(), 3);
    assert_eq!(one.read(&mut buf), Ok(1));
    assert_eq!(one.pos(), 4);
    let zero = StreamSelector::new(alternating(), 0);
    assert_eq!(zero.len(), 6);
}

#[test]
fn selector_passes_writes_seeks_and_flushes_through() {
    let mut one = StreamSelector::new(alternating(), 1);
    assert_eq!(one.write(&[1, 2, 3]), Ok(3));
    assert_eq!(one.write(&[1, 2, 3, 4, 5]), Err(PhonicError::Io(28)));
    assert_eq!(one.seek(-4), Ok(()));
    assert_eq!(one.seek(101), Err(PhonicError::BadRequest));
    assert_eq!(one.flush(), Ok(()));
    one.block();
    let mut zero = StreamSelector::new(interleaved(Vec::new()), 0);
    assert_eq!(zero.write(&[9]), Ok(1));
    assert_eq!(zero.seek(7), Ok(()));
}
