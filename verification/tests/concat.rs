use phonic::{
    ChannelLayout, Concat, FiniteSignal, IndexedSignal, PhonicError, Signal, SignalReader,
    SignalSeeker, SignalSpec, SignalWriter,
};

fn mono(sample_rate: u32) -> SignalSpec {
    SignalSpec { sample_rate, channels: ChannelLayout::from_mask(1) }
}

/// A finite signal of numbered frames that hands out or takes at most
/// `chunk` frames at once, and can be made to fail.
struct Clip {
    spec: SignalSpec,
    first: i32,
    len: u64,
    pos: u64,
    chunk: usize,
    reads: usize,
    flushes: usize,
    written: Vec<i32>,
    fail_at: Option<u64>,
}

fn clip(first: i32, len: u64) -> Clip {
    Clip {
        spec: mono(48000),
        first,
        len,
        pos: 0,
        chunk: usize::MAX,
        reads: 0,
        flushes: 0,
        written: Vec::new(),
        fail_at: None,
    }
}

impl Signal for Clip {
    type Sample = i32;

    fn spec(&self) -> &SignalSpec {
        &self.spec
    }
}

impl IndexedSignal for Clip {
    fn pos(&self) -> u64 {
        self.pos
    }
}

impl FiniteSignal for Clip {
    fn len(&self) -> u64 {
        self.len
    }
}

impl SignalReader for Clip {
    fn read(&mut self, buf: &mut [i32]) -> Result<usize, PhonicError> {
        self.reads += 1;
        if self.fail_at == Some(self.pos) {
            return Err(PhonicError::Io(5));
        }
        let left = (self.len - self.pos) as usize;
        let n = buf.len().min(left).min(self.chunk);
        for (k, slot) in buf[..n].iter_mut().enumerate() {
            *slot = self.first + (self.pos as i32) + k as i32;
        }
        self.pos += n as u64;
        Ok(n)
    }
}

impl SignalWriter for Clip {
    fn write(&mut self, buf: &[i32]) -> Result<usize, PhonicError> {
        if self.fail_at == Some(self.pos) {
            return Err(PhonicError::Io(28));
        }
        let left = (self.len - self.pos) as usize;
        let n = buf.len().min(left).min(self.chunk);
        self.written.extend_from_slice(&buf[..n]);
        self.pos += n as u64;
        Ok(n)
    }

    fn flush(&mut self) -> Result<(), PhonicError> {
        self.flushes += 1;
        if self.fail_at == Some(u64::MAX) {
            return Err(PhonicError::Io(9));
        }
        Ok(())
    }
}

impl SignalSeeker for Clip {
    fn seek(&mut self, offset: i64) -> Result<(), PhonicError> {
        let target = self.pos as i64 + offset;
        if target < 0 || target as u64 > self.len {
            return Err(PhonicError::BadRequest);
        }
        self.pos = target as u64;
        Ok(())
    }
}

fn concat(clips: Vec<Clip>) -> Concat<Vec<Clip>> {
    match Concat::new(clips) {
        Ok(c) => c,
        Err(e) => panic!("no concatenation: {:?}", e),
    }
}

#[test]
fn concat_len_is_sum_of_lengths() {
    let c = concat(vec![clip(0, 100), clip(1000, 0), clip(2000, 50)]);
    assert_eq!(c.len(), 150);
    assert_eq!(concat(vec![clip(0, 7)]).len(), 7);
    assert_eq!(concat(vec![clip(0, 0), clip(0, 0)]).len(), 0);
}

#[test]
fn concat_pos_after_first_and_part_of_third() {
    let mut c = concat(vec![clip(0, 100), clip(1000, 0), clip(2000, 50)]);
    assert_eq!(c.pos(), 0);
    let mut buf = [0i32; 100];
    assert_eq!(c.read(&mut buf), Ok(100));
    assert_eq!(c.pos(), 100);
    let mut part = [0i32; 20];
    assert_eq!(c.read(&mut part), Ok(20));
    assert_eq!(part[0], 2000);
    assert_eq!(part[19], 2019);
    assert_eq!(c.pos(), 120);
    assert_eq!(c.len(), 150);
    let clips = c.into_inner();
    // the empty signal in the middle was asked once, and gave nothing
    assert_eq!(clips[1].reads, 1);
    assert_eq!(clips[1].pos, 0);
    assert_eq!(clips[0].reads, 2);
    assert_eq!(clips[2].reads, 1);
}

#[test]
fn concat_pos_counts_every_signal_once_exhausted() {
    let mut c = concat(vec![clip(0, 3), clip(10, 2)]);
    let mut buf = [0i32; 8];
    assert_eq!(c.read(&mut buf), Ok(3));
    assert_eq!(c.read(&mut buf), Ok(2));
    assert_eq!(c.read(&mut buf), Ok(0));
    assert_eq!(c.pos(), 5);
    assert_eq!(c.read(&mut buf), Ok(0));
    assert_eq!(c.pos(), 5);
}

#[test]
fn concat_reads_signals_in_order() {
    let mut c = concat(vec![clip(0, 3), clip(10, 2), clip(20, 4)]);
    let mut all = Vec::new();
    let mut buf = [0i32; 8];
    loop {
        match c.read(&mut buf) {
            Ok(0) => break,
            Ok(n) => all.extend_from_slice(&buf[..n]),
            Err(e) => panic!("read failed: {:?}", e),
        }
    }
    assert_eq!(all, vec![0, 1, 2, 10, 11, 20, 21, 22, 23]);
}

#[test]
fn concat_does_not_advance_on_partial_read() {
    let mut slow = clip(0, 10);
    slow.chunk = 4;
    let mut c = concat(vec![slow, clip(100, 10)]);
    let mut buf = [0i32; 8];
    assert_eq!(c.read(&mut buf), Ok(4));
    assert_eq!(&buf[..4], &[0, 1, 2, 3]);
    assert_eq!(c.as_inner()[1].reads, 0);
    assert_eq!(c.read(&mut buf), Ok(4));
    assert_eq!(c.read(&mut buf), Ok(2));
    assert_eq!(&buf[..2], &[8, 9]);
    assert_eq!(c.as_inner()[1].reads, 0);
    // only the answer of no progress makes the next signal current
    assert_eq!(c.read(&mut buf), Ok(8));
    assert_eq!(buf[0], 100);
    assert_eq!(c.as_inner()[0].reads, 4);
    assert_eq!(c.as_inner()[1].reads, 1);
}

#[test]
fn concat_read_of_exhausted_list_is_end_of_data() {
    let mut c = concat(vec![clip(0, 0), clip(0, 0), clip(0, 0)]);
    let mut buf = [0i32; 4];
    assert_eq!(c.read(&mut buf), Ok(0));
    assert_eq!(c.read(&mut buf), Ok(0));
    let clips = c.into_inner();
    assert_eq!(clips[0].reads, 1);
    assert_eq!(clips[1].reads, 1);
    assert_eq!(clips[2].reads, 1);
}

#[test]
fn concat_read_hands_errors_on_and_stays() {
    let mut broken = clip(10, 5);
    broken.fail_at = Some(2);
    broken.chunk = 2;
    let mut c = concat(vec![clip(0, 1), broken, clip(20, 5)]);
    let mut buf = [0i32; 8];
    assert_eq!(c.read(&mut buf), Ok(1));
    assert_eq!(c.read(&mut buf), Ok(2));
    assert_eq!(c.read(&mut buf), Err(PhonicError::Io(5)));
    assert_eq!(c.read(&mut buf), Err(PhonicError::Io(5)));
    assert_eq!(c.as_inner()[2].reads, 0);
    assert_eq!(c.pos(), 3);
}

#[test]
fn concat_new_rejects_empty_and_mixed_lists() {
    assert_eq!(Concat::new(Vec::<Clip>::new()).err(), Some(PhonicError::MissingData));
    let mut other = clip(0, 1);
    other.spec = mono(44100);
    assert_eq!(Concat::new(vec![clip(0, 1), other]).err(), Some(PhonicError::ParamMismatch));
    let mut wide = clip(0, 1);
    wide.spec = SignalSpec { sample_rate: 48000, channels: ChannelLayout::from_mask(3) };
    assert_eq!(
        Concat::new(vec![clip(0, 1), clip(0, 1), wide]).err(),
        Some(PhonicError::ParamMismatch)
    );
}

#[test]
fn concat_spec_is_the_shared_spec() {
    let c = concat(vec![clip(0, 1), clip(0, 2)]);
    assert_eq!(*c.spec(), mono(48000));
    assert_eq!(c.as_inner().len(), 2);
}

#[test]
fn concat_write_fills_signals_in_order() {
    let mut c = concat(vec![clip(0, 3), clip(0, 0), clip(0, 4)]);
    assert_eq!(c.write(&[1, 2]), Ok(2));
    // the first signal takes one more, and says so with a partial count
    assert_eq!(c.write(&[3, 4, 5]), Ok(1));
    // now it takes nothing: the write moves on, past the empty one
    assert_eq!(c.write(&[4, 5]), Ok(2));
    assert_eq!(c.write(&[6, 7, 8]), Ok(2));
    assert_eq!(c.write(&[8]), Ok(0));
    assert_eq!(c.pos(), 7);
    let clips = c.into_inner();
    assert_eq!(clips[0].written, vec![1, 2, 3]);
    assert_eq!(clips[1].written, Vec::<i32>::new());
    assert_eq!(clips[2].written, vec![4, 5, 6, 7]);
}

#[test]
fn concat_write_hands_errors_on() {
    let mut broken = clip(0, 5);
    broken.fail_at = Some(0);
    let mut c = concat(vec![clip(0, 0), broken, clip(0, 5)]);
    assert_eq!(c.write(&[1, 2]), Err(PhonicError::Io(28)));
    assert_eq!(c.as_inner()[2].written, Vec::<i32>::new());
}

#[test]
fn concat_flush_reaches_every_signal_up_to_the_current() {
    let mut c = concat(vec![clip(0, 1), clip(0, 1), clip(0, 1)]);
    assert_eq!(c.flush(), Ok(()));
    assert_eq!(c.as_inner()[0].flushes, 1);
    assert_eq!(c.as_inner()[1].flushes, 0);
    assert_eq!(c.write(&[1]), Ok(1));
    assert_eq!(c.write(&[2]), Ok(1));
    assert_eq!(c.flush(), Ok(()));
    assert_eq!(c.as_inner()[0].flushes, 2);
    assert_eq!(c.as_inner()[1].flushes, 1);
    assert_eq!(c.as_inner()[2].flushes, 0);
    assert_eq!(c.write(&[3]), Ok(1));
    assert_eq!(c.write(&[4]), Ok(0));
    assert_eq!(c.flush(), Ok(()));
    assert_eq!(c.as_inner()[0].flushes, 3);
    assert_eq!(c.as_inner()[1].flushes, 2);
    assert_eq!(c.as_inner()[2].flushes, 1);
}

#[test]
fn concat_flush_stops_at_the_first_error() {
    let mut broken = clip(0, 0);
    broken.fail_at = Some(u64::MAX);
    let mut c = concat(vec![clip(0, 0), broken, clip(0, 5)]);
    assert_eq!(c.write(&[1]), Ok(1));
    assert_eq!(c.flush(), Err(PhonicError::Io(9)));
    assert_eq!(c.as_inner()[0].flushes, 1);
    assert_eq!(c.as_inner()[1].flushes, 1);
    assert_eq!(c.as_inner()[2].flushes, 0);
}

#[test]
fn concat_seek_moves_within_the_current_signal() {
    let mut c = concat(vec![clip(0, 4), clip(100, 4)]);
    let mut buf = [0i32; 3];
    assert_eq!(c.read(&mut buf), Ok(3));
    assert_eq!(c.seek(-2), Ok(()));
    assert_eq!(c.pos(), 1);
    assert_eq!(c.read(&mut buf), Ok(3));
    assert_eq!(buf, [1, 2, 3]);
    // a seek that leaves the current signal is refused by that signal
    assert_eq!(c.seek(-5), Err(PhonicError::BadRequest));
    assert_eq!(c.seek(1), Err(PhonicError::BadRequest));
    assert_eq!(c.pos(), 4);
    assert_eq!(c.read(&mut buf), Ok(3));
    assert_eq!(buf, [100, 101, 102]);
    // back to the start of the second signal, not into the first
    assert_eq!(c.seek(-3), Ok(()));
    assert_eq!(c.pos(), 4);
    assert_eq!(c.seek(-1), Err(PhonicError::BadRequest));
}

#[test]
fn concat_seek_without_a_current_signal_is_not_supported() {
    let mut c = concat(vec![clip(0, 1)]);
    let mut buf = [0i32; 3];
    assert_eq!(c.read(&mut buf), Ok(1));
    assert_eq!(c.read(&mut buf), Ok(0));
    assert_eq!(c.seek(0), Err(PhonicError::Unsupported));
    assert_eq!(c.seek(-1), Err(PhonicError::Unsupported));
}
