use phonic::{
    ChannelLayout, FiniteSignal, IndexedSignal, Observer, PhonicError, Signal, SignalEvent,
    SignalReader, SignalSeeker, SignalSpec, SignalWriter,
};
use std::cell::RefCell;
use std::rc::Rc;

/// A signal over a vector of samples. It transfers at most three samples at
/// once, and fails at positions that are listed.
#[derive(Clone, Debug, PartialEq)]
struct Tape {
    spec: SignalSpec,
    data: Vec<i16>,
    pos: usize,
    flushed: usize,
    bad: Vec<usize>,
}

fn tape(data: Vec<i16>) -> Tape {
    Tape {
        spec: SignalSpec { sample_rate: 48000, channels: ChannelLayout::from_mask(3) },
        data,
        pos: 0,
        flushed: 0,
        bad: Vec::new(),
    }
}

impl Signal for Tape {
    type Sample = i16;

    fn spec(&self) -> &SignalSpec {
        &self.spec
    }
}

impl IndexedSignal for Tape {
    fn pos(&self) -> u64 {
        self.pos as u64
    }
}

impl FiniteSignal for Tape {
    fn len(&self) -> u64 {
        self.data.len() as u64
    }
}

impl SignalReader for Tape {
    fn read(&mut self, buf: &mut [i16]) -> Result<usize, PhonicError> {
        if self.bad.contains(&self.pos) {
            return Err(PhonicError::Io(5));
        }
        let n = buf.len().min(self.data.len() - self.pos).min(3);
        buf[..n].copy_from_slice(&self.data[self.pos..self.pos + n]);
        self.pos += n;
        Ok(n)
    }
}

impl SignalWriter for Tape {
    fn write(&mut self, buf: &[i16]) -> Result<usize, PhonicError> {
        if self.bad.contains(&self.pos) {
            return Err(PhonicError::Io(28));
        }
        let n = buf.len().min(self.data.len() - self.pos).min(3);
        self.data[self.pos..self.pos + n].copy_from_slice(&buf[..n]);
        self.pos += n;
        Ok(n)
    }

    fn flush(&mut self) -> Result<(), PhonicError> {
        self.flushed += 1;
        Ok(())
    }
}

impl SignalSeeker for Tape {
    fn seek(&mut self, offset: i64) -> Result<(), PhonicError> {
        let target = self.pos as i64 + offset;
        if target < 0 || target as usize > self.data.len() {
            return Err(PhonicError::BadRequest);
        }
        self.pos = target as usize;
        Ok(())
    }
}

type Log = Rc<RefCell<Vec<String>>>;

fn log() -> Log {
    Rc::new(RefCell::new(Vec::new()))
}

#[test]
fn observer_reports_only_what_was_read() {
    let seen: Rc<RefCell<Vec<i16>>> = Rc::new(RefCell::new(Vec::new()));
    let sink = seen.clone();
    let mut observed = Observer::on_read(tape(vec![0, 1, 2, 3, 4]), move |_: &Tape, buf: &[i16]| {
        sink.borrow_mut().extend_from_slice(buf);
    });
    let mut buf = [0i16; 4];
    assert_eq!(observed.read(&mut buf), Ok(3));
    assert_eq!(*seen.borrow(), vec![0, 1, 2]);
    assert_eq!(observed.read(&mut buf), Ok(2));
    assert_eq!(observed.read(&mut buf), Ok(0));
    assert_eq!(*seen.borrow(), vec![0, 1, 2, 3, 4]);
}

#[test]
fn observer_is_transparent_for_reads() {
    let mut plain = tape((0..10).collect());
    plain.bad = vec![6];
    let mut observed = Observer::new(plain.clone(), |_: &Tape, _: SignalEvent<Tape>| {});
    for size in [2usize, 5, 0, 3, 4, 1] {
        let mut a = vec![-1i16; size];
        let mut b = vec![-1i16; size];
        assert_eq!(observed.read(&mut a), plain.read(&mut b));
        assert_eq!(a, b);
        assert_eq!(*observed.as_inner(), plain);
    }
    assert_eq!(observed.into_inner(), plain);
}

#[test]
fn observer_is_transparent_for_writes_and_seeks() {
    let mut plain = tape(vec![0; 8]);
    plain.bad = vec![5];
    let mut observed = Observer::new(plain.clone(), |_: &Tape, _: SignalEvent<Tape>| {});
    assert_eq!(observed.write(&[1, 2, 3, 4]), plain.write(&[1, 2, 3, 4]));
    assert_eq!(observed.seek(-1), plain.seek(-1));
    assert_eq!(observed.seek(-9), plain.seek(-9));
    assert_eq!(observed.write(&[7, 8, 9]), plain.write(&[7, 8, 9]));
    assert_eq!(observed.write(&[7]), plain.write(&[7]));
    assert_eq!(observed.write(&[7]), Err(PhonicError::Io(28)));
    assert_eq!(observed.flush(), plain.flush());
    assert_eq!(observed.seek(3), plain.seek(3));
    assert_eq!(observed.seek(1), plain.seek(1));
    assert_eq!(observed.pos(), plain.pos());
    assert_eq!(observed.len(), plain.len());
    assert_eq!(observed.spec(), plain.spec());
    assert_eq!(observed.into_inner(), plain);
}

#[test]
fn observer_event_callback_sees_every_operation() {
    let seen = log();
    let sink = seen.clone();
    let mut observed =
        Observer::new(tape(vec![10, 11, 12, 13]), move |inner: &Tape, event: SignalEvent<Tape>| {
            let line = match event {
                SignalEvent::Read(buf) => format!("read {:?} at {}", buf, inner.pos),
                SignalEvent::Write(buf) => format!("write {:?} at {}", buf, inner.pos),
                SignalEvent::Seek(offset) => format!("seek {} at {}", offset, inner.pos),
            };
            sink.borrow_mut().push(line);
        });
    let mut buf = [0i16; 2];
    assert_eq!(observed.read(&mut buf), Ok(2));
    assert_eq!(observed.seek(-1), Ok(()));
    assert_eq!(observed.write(&[7, 8, 9, 6]), Ok(3));
    assert_eq!(observed.flush(), Ok(()));
    assert_eq!(
        *seen.borrow(),
        vec![
            "read [10, 11] at 2".to_string(),
            "seek -1 at 1".to_string(),
            "write [7, 8, 9] at 4".to_string(),
        ]
    );
    assert_eq!(observed.into_inner().data, vec![10, 7, 8, 9]);
}

#[test]
fn observer_callback_is_not_called_on_failure() {
    let seen = log();
    let sink = seen.clone();
    let mut broken = tape(vec![0; 4]);
    broken.bad = vec![0];
    let mut observed =
        Observer::new(broken, move |_: &Tape, _: SignalEvent<Tape>| {
            sink.borrow_mut().push("called".to_string());
        });
    let mut buf = [0i16; 2];
    assert_eq!(observed.read(&mut buf), Err(PhonicError::Io(5)));
    assert_eq!(observed.write(&[1]), Err(PhonicError::Io(28)));
    assert_eq!(observed.seek(9), Err(PhonicError::BadRequest));
    assert!(seen.borrow().is_empty());
}

#[test]
fn observer_callback_is_called_on_zero_progress() {
    let seen = log();
    let sink = seen.clone();
    let mut observed = Observer::on_read(tape(Vec::new()), move |_: &Tape, buf: &[i16]| {
        sink.borrow_mut().push(format!("{}", buf.len()));
    });
    let mut buf = [0i16; 2];
    assert_eq!(observed.read(&mut buf), Ok(0));
    assert_eq!(*seen.borrow(), vec!["0".to_string()]);
}

#[test]
fn observer_on_write_sees_writes_only() {
    let seen = log();
    let sink = seen.clone();
    let mut observed = Observer::on_write(tape(vec![0; 4]), move |_: &Tape, buf: &[i16]| {
        sink.borrow_mut().push(format!("{:?}", buf));
    });
    let mut buf = [0i16; 2];
    assert_eq!(observed.read(&mut buf), Ok(2));
    assert_eq!(observed.seek(-2), Ok(()));
    assert_eq!(observed.write(&[5, 6, 7, 8]), Ok(3));
    assert_eq!(observed.write(&[8, 9]), Ok(1));
    assert_eq!(*seen.borrow(), vec!["[5, 6, 7]".to_string(), "[8]".to_string()]);
}

#[test]
fn observer_on_seek_sees_seeks_only() {
    let seen: Rc<RefCell<Vec<i64>>> = Rc::new(RefCell::new(Vec::new()));
    let sink = seen.clone();
    let mut observed = Observer::on_seek(tape(vec![0; 4]), move |_: &Tape, offset: i64| {
        sink.borrow_mut().push(offset);
    });
    let mut buf = [0i16; 2];
    assert_eq!(observed.read(&mut buf), Ok(2));
    assert_eq!(observed.write(&[1]), Ok(1));
    assert_eq!(observed.seek(-3), Ok(()));
    assert_eq!(observed.seek(-3), Err(PhonicError::BadRequest));
    assert_eq!(observed.seek(4), Ok(()));
    assert_eq!(*seen.borrow(), vec![-3, 4]);
}

#[test]
fn observers_nest() {
    let reads = Rc::new(RefCell::new(0usize));
    let seeks = Rc::new(RefCell::new(0usize));
    let (r, s) = (reads.clone(), seeks.clone());
    let inner = Observer::on_read(tape(vec![1, 2, 3]), move |_: &Tape, _: &[i16]| {
        *r.borrow_mut() += 1;
    });
    let mut outer = Observer::on_seek(inner, move |_, _: i64| {
        *s.borrow_mut() += 1;
    });
    let mut buf = [0i16; 2];
    assert_eq!(outer.read(&mut buf), Ok(2));
    assert_eq!(outer.seek(-2), Ok(()));
    assert_eq!(outer.read(&mut buf), Ok(2));
    assert_eq!(buf, [1, 2]);
    assert_eq!((*reads.borrow(), *seeks.borrow()), (2, 1));
}
