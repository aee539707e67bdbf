use console_backend::device::{fill_unit, transfer_len};
use console_backend::{
    ConsoleError, ConsoleOutputHandle, Coord, Fault, MemoryOutput, OsError, ScreenBufferInfo,
    Side, SmallRect, WriteBuffer,
};

fn geometry() -> ScreenBufferInfo {
    ScreenBufferInfo {
        size: Coord { x: 80, y: 300 },
        cursor_position: Coord { x: 0, y: 0 },
        attributes: 7,
        window: SmallRect { left: 0, top: 0, right: 79, bottom: 24 },
        maximum_window_size: Coord { x: 80, y: 25 },
    }
}

fn device() -> MemoryOutput {
    MemoryOutput::new(0x3, geometry())
}

fn pattern(len: usize, seed: u8) -> Vec<u8> {
    (0..len).map(|i| seed.wrapping_add(i as u8)).collect()
}

/// A console that takes a fixed number of bytes in all and then fails every
/// write with error 5.
struct Budgeted {
    accepted: Vec<u8>,
    budget: usize,
    flushed: usize,
    calls: usize,
}

impl ConsoleOutputHandle for Budgeted {
    fn output_mode(&self) -> u32 {
        0
    }

    fn written(&self) -> Vec<u8> {
        self.accepted.clone()
    }

    fn synced(&self) -> usize {
        self.flushed
    }

    fn buffer_info(&self) -> ScreenBufferInfo {
        geometry()
    }

    fn set_output_mode(&mut self, _mode: u32) -> Result<(), OsError> {
        Err(OsError { code: 1 })
    }

    fn get_output_mode(&mut self) -> Result<u32, OsError> {
        Ok(0)
    }

    fn write(&mut self, buf: &[u8]) -> Result<usize, OsError> {
        self.calls += 1;
        if self.budget == 0 {
            return Err(OsError { code: 5 });
        }
        let count = buf.len().min(self.budget);
        self.accepted.extend_from_slice(&buf[..count]);
        self.budget -= count;
        Ok(count)
    }

    fn flush(&mut self) -> Result<(), OsError> {
        self.flushed = self.accepted.len();
        Ok(())
    }

    fn fill_char(&mut self, _text: char, _x: i16, _y: i16, len: u32) -> Result<u32, OsError> {
        Ok(len)
    }

    fn fill_attr(&mut self, _attr: u16, _x: i16, _y: i16, len: u32) -> Result<u32, OsError> {
        Ok(len)
    }

    fn set_attr(&mut self, _attr: u16) -> Result<(), OsError> {
        Ok(())
    }

    fn set_cursor_position(&mut self, _x: i16, _y: i16) -> Result<(), OsError> {
        Ok(())
    }

    fn get_buffer_info(&mut self) -> Result<ScreenBufferInfo, OsError> {
        Ok(geometry())
    }

    fn set_viewport(&mut self, _l: i16, _t: i16, _r: i16, _b: i16) -> Result<(), OsError> {
        Ok(())
    }

    fn set_buffer_size(&mut self, _size: Coord) -> Result<(), OsError> {
        Err(OsError { code: 1 })
    }
}

#[test]
fn new_buffer_is_empty_and_has_its_capacity() {
    let buffer = WriteBuffer::new(1024);
    assert_eq!(buffer.len(), 0);
    assert!(buffer.is_empty());
    assert_eq!(buffer.capacity(), 1024);
    assert_eq!(buffer.as_slice(), &[] as &[u8]);
}

#[test]
fn small_writes_wait_and_a_large_write_pushes_them_out_first() {
    let mut out = device();
    let mut buffer = WriteBuffer::new(1024);
    let first = pattern(10, 1);
    let second = pattern(20, 50);
    let third = pattern(5000, 100);

    assert_eq!(buffer.write(&mut out, &first), Ok(10));
    assert!(out.written.is_empty());
    assert_eq!(buffer.write(&mut out, &second), Ok(20));
    assert!(out.written.is_empty());
    assert_eq!(buffer.len(), 30);

    assert_eq!(buffer.write(&mut out, &third), Ok(5000));
    assert_eq!(out.written.len(), 5030);
    assert_eq!(&out.written[..10], &first[..]);
    assert_eq!(&out.written[10..30], &second[..]);
    assert_eq!(&out.written[30..], &third[..]);
    assert!(buffer.is_empty());
}

#[test]
fn buffered_writes_reach_the_device_at_the_flush_and_in_order() {
    let mut out = device();
    let mut buffer = WriteBuffer::new(64);
    let chunks: Vec<Vec<u8>> = vec![pattern(10, 0), pattern(0, 0), pattern(30, 10), pattern(24, 40)];
    let mut expected = Vec::new();
    for chunk in &chunks {
        assert_eq!(buffer.write(&mut out, chunk), Ok(chunk.len()));
        assert!(out.written.is_empty());
        expected.extend_from_slice(chunk);
    }
    assert_eq!(buffer.len(), 64);
    assert_eq!(buffer.as_slice(), &expected[..]);
    assert_eq!(buffer.flush(&mut out), Ok(()));
    assert_eq!(out.written, expected);
    assert_eq!(out.synced, 64);
    assert!(buffer.is_empty());
}

#[test]
fn write_that_would_overflow_flushes_what_waits_and_is_kept_itself() {
    let mut out = device();
    let mut buffer = WriteBuffer::new(16);
    assert_eq!(buffer.write(&mut out, &pattern(10, 0)), Ok(10));
    assert_eq!(buffer.write(&mut out, &pattern(7, 100)), Ok(7));
    assert_eq!(out.written, pattern(10, 0));
    assert_eq!(out.synced, 10);
    assert_eq!(buffer.as_slice(), &pattern(7, 100)[..]);
}

#[test]
fn write_of_exactly_the_capacity_goes_straight_to_the_device() {
    let mut out = device();
    let mut buffer = WriteBuffer::new(16);
    assert_eq!(buffer.write(&mut out, &pattern(16, 3)), Ok(16));
    assert_eq!(out.written, pattern(16, 3));
    assert_eq!(out.synced, 0);
    assert!(buffer.is_empty());
}

#[test]
fn write_one_short_of_the_capacity_is_kept() {
    let mut out = device();
    let mut buffer = WriteBuffer::new(16);
    assert_eq!(buffer.write(&mut out, &pattern(15, 3)), Ok(15));
    assert!(out.written.is_empty());
    assert_eq!(buffer.len(), 15);
}

#[test]
fn buffer_without_capacity_passes_everything_through() {
    let mut out = device();
    let mut buffer = WriteBuffer::new(0);
    assert_eq!(buffer.write(&mut out, b"ab"), Ok(2));
    assert_eq!(buffer.write(&mut out, b""), Ok(0));
    assert_eq!(buffer.write(&mut out, b"c"), Ok(1));
    assert_eq!(out.written, b"abc".to_vec());
    assert!(buffer.is_empty());
}

#[test]
fn flush_of_an_empty_buffer_still_flushes_the_device() {
    let mut out = device();
    let mut buffer = WriteBuffer::new(16);
    assert_eq!(buffer.write(&mut out, &pattern(40, 0)), Ok(40));
    assert_eq!(out.synced, 0);
    assert_eq!(buffer.flush(&mut out), Ok(()));
    assert_eq!(out.synced, 40);
    assert_eq!(out.written.len(), 40);
}

#[test]
fn short_write_is_reported_and_the_rest_waits_for_the_next_flush() {
    let mut out = device();
    out.accept_at_most = 12;
    let mut buffer = WriteBuffer::new(64);
    assert_eq!(buffer.write(&mut out, &pattern(30, 9)), Ok(30));
    assert_eq!(buffer.flush(&mut out), Err(ConsoleError::ShortWrite));
    assert_eq!(out.written, pattern(12, 9));
    assert_eq!(out.synced, 0);
    assert_eq!(buffer.as_slice(), &pattern(30, 9)[12..]);
    assert_eq!(buffer.flush(&mut out), Err(ConsoleError::ShortWrite));
    assert_eq!(out.written, pattern(24, 9));
    assert_eq!(buffer.flush(&mut out), Ok(()));
    assert_eq!(out.written, pattern(30, 9));
    assert_eq!(out.synced, 30);
    assert!(buffer.is_empty());
}

#[test]
fn direct_write_reports_how_much_the_device_took() {
    let mut out = device();
    out.accept_at_most = 7;
    let mut buffer = WriteBuffer::new(16);
    assert_eq!(buffer.write(&mut out, &pattern(5, 0)), Ok(5));
    assert_eq!(buffer.write(&mut out, &pattern(100, 50)), Ok(7));
    let mut expected = pattern(5, 0);
    expected.extend_from_slice(&pattern(7, 50));
    assert_eq!(out.written, expected);
    assert!(buffer.is_empty());
}

#[test]
fn device_that_takes_nothing_gives_a_short_write_and_loses_nothing() {
    let mut out = device();
    out.accept_at_most = 0;
    let mut buffer = WriteBuffer::new(16);
    assert_eq!(buffer.write(&mut out, &pattern(10, 0)), Ok(10));
    assert_eq!(buffer.flush(&mut out), Err(ConsoleError::ShortWrite));
    assert!(out.written.is_empty());
    assert_eq!(buffer.as_slice(), &pattern(10, 0)[..]);
    out.accept_at_most = usize::MAX;
    assert_eq!(buffer.flush(&mut out), Ok(()));
    assert_eq!(out.written, pattern(10, 0));
}

#[test]
fn failed_flush_reports_the_code_and_keeps_the_bytes() {
    let mut out = device();
    let mut buffer = WriteBuffer::new(16);
    assert_eq!(buffer.write(&mut out, &pattern(10, 0)), Ok(10));
    out.fault = Some(Fault { error: OsError { code: 232 }, after: 0 });
    assert_eq!(
        buffer.flush(&mut out),
        Err(ConsoleError::Io(Side::Output, OsError { code: 232 }))
    );
    assert_eq!(buffer.len(), 10);
    assert_eq!(
        buffer.write(&mut out, &pattern(10, 0)),
        Err(ConsoleError::Io(Side::Output, OsError { code: 232 }))
    );
    assert_eq!(buffer.len(), 10);
    assert!(out.written.is_empty());
    assert_eq!(buffer.write(&mut out, &pattern(6, 10)), Ok(6));
    out.fault = None;
    assert_eq!(buffer.flush(&mut out), Ok(()));
    assert_eq!(out.written, pattern(16, 0));
}

#[test]
fn failed_device_flush_is_reported_after_the_bytes_went_out() {
    let mut out = device();
    let mut buffer = WriteBuffer::new(16);
    assert_eq!(buffer.write(&mut out, b"abc"), Ok(3));
    out.fault = Some(Fault { error: OsError { code: 6 }, after: 1 });
    assert_eq!(
        buffer.flush(&mut out),
        Err(ConsoleError::Io(Side::Output, OsError { code: 6 }))
    );
    assert_eq!(out.written, b"abc".to_vec());
    assert_eq!(out.synced, 0);
    assert!(buffer.is_empty());
}

#[test]
fn flush_offers_what_waits_exactly_once() {
    let mut out = Budgeted { accepted: Vec::new(), budget: 12, flushed: 0, calls: 0 };
    let mut buffer = WriteBuffer::new(64);
    assert_eq!(buffer.write(&mut out, &pattern(30, 0)), Ok(30));
    assert_eq!(out.calls, 0);
    assert_eq!(buffer.flush(&mut out), Err(ConsoleError::ShortWrite));
    assert_eq!(out.calls, 1);
    assert_eq!(out.accepted, pattern(12, 0));
    assert_eq!(out.flushed, 0);
    assert_eq!(buffer.as_slice(), &pattern(30, 0)[12..]);
    assert_eq!(
        buffer.flush(&mut out),
        Err(ConsoleError::Io(Side::Output, OsError { code: 5 }))
    );
    assert_eq!(out.calls, 2);
    assert_eq!(buffer.as_slice(), &pattern(30, 0)[12..]);
    out.budget = 100;
    assert_eq!(buffer.flush(&mut out), Ok(()));
    assert_eq!(out.calls, 3);
    assert_eq!(out.accepted, pattern(30, 0));
    assert_eq!(out.flushed, 30);
}

#[test]
fn large_write_behind_a_failed_flush_is_not_sent() {
    let mut out = Budgeted { accepted: Vec::new(), budget: 4, flushed: 0, calls: 0 };
    let mut buffer = WriteBuffer::new(8);
    assert_eq!(buffer.write(&mut out, b"abcdef"), Ok(6));
    assert_eq!(buffer.write(&mut out, &pattern(100, 0)), Err(ConsoleError::ShortWrite));
    assert_eq!(out.calls, 1);
    assert_eq!(out.accepted, b"abcd".to_vec());
    assert_eq!(buffer.as_slice(), b"ef");
    assert_eq!(
        buffer.write(&mut out, &pattern(100, 0)),
        Err(ConsoleError::Io(Side::Output, OsError { code: 5 }))
    );
    assert_eq!(out.accepted, b"abcd".to_vec());
    assert_eq!(buffer.as_slice(), b"ef");
}

#[test]
fn transfer_length_is_the_buffer_length_up_to_the_most_a_call_moves() {
    assert_eq!(transfer_len(0), 0);
    assert_eq!(transfer_len(4096), 4096);
    assert_eq!(transfer_len(0xffff_ffff), 0xffff_ffff);
    assert_eq!(transfer_len(usize::MAX), 0xffff_ffff);
}

#[test]
fn fill_unit_is_the_low_sixteen_bits_of_the_code_point() {
    assert_eq!(fill_unit(' '), 0x20);
    assert_eq!(fill_unit('A'), 0x41);
    assert_eq!(fill_unit('\u{2588}'), 0x2588);
    assert_eq!(fill_unit('\u{ffff}'), 0xffff);
    assert_eq!(fill_unit('\u{1F600}'), 0xF600);
}

#[test]
fn buffer_of_any_capacity_can_be_made() {
    let mut out = device();
    let mut buffer = WriteBuffer::new(usize::MAX);
    assert_eq!(buffer.capacity(), usize::MAX);
    assert_eq!(buffer.write(&mut out, &pattern(4096, 0)), Ok(4096));
    assert!(out.written.is_empty());
    assert_eq!(buffer.len(), 4096);
}
