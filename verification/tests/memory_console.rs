use console_backend::memory::{tick, ERROR_INVALID_PARAMETER};
use console_backend::{
    ConsoleInputHandle, ConsoleOutputHandle, ConsoleStream, Coord, Fault, MemoryInput,
    MemoryOutput, MemoryStream, OsError, ScreenBufferInfo, SmallRect,
};

fn geometry() -> ScreenBufferInfo {
    ScreenBufferInfo {
        size: Coord { x: 80, y: 300 },
        cursor_position: Coord { x: 1, y: 2 },
        attributes: 7,
        window: SmallRect { left: 0, top: 0, right: 79, bottom: 24 },
        maximum_window_size: Coord { x: 80, y: 25 },
    }
}

#[test]
fn fault_counts_down_and_then_stays() {
    let mut fault = Some(Fault { error: OsError { code: 5 }, after: 2 });
    assert_eq!(tick(&mut fault), Ok(()));
    assert_eq!(fault, Some(Fault { error: OsError { code: 5 }, after: 1 }));
    assert_eq!(tick(&mut fault), Ok(()));
    assert_eq!(tick(&mut fault), Err(OsError { code: 5 }));
    assert_eq!(tick(&mut fault), Err(OsError { code: 5 }));
    assert_eq!(fault, Some(Fault { error: OsError { code: 5 }, after: 0 }));
    let mut none = None;
    assert_eq!(tick(&mut none), Ok(()));
    assert_eq!(none, None);
}

#[test]
fn memory_input_keeps_the_mode_it_is_given() {
    let mut input = MemoryInput::new(0xF);
    assert_eq!(input.get_input_mode(), Ok(0xF));
    assert_eq!(input.set_input_mode(0x208), Ok(()));
    assert_eq!(input.get_input_mode(), Ok(0x208));
    assert_eq!(input.mode, 0x208);
}

#[test]
fn memory_input_fails_when_told_to_and_changes_nothing() {
    let mut input = MemoryInput::new(0xF);
    input.pending = b"abc".to_vec();
    input.fault = Some(Fault { error: OsError { code: 6 }, after: 0 });
    assert_eq!(input.set_input_mode(0), Err(OsError { code: 6 }));
    assert_eq!(input.get_input_mode(), Err(OsError { code: 6 }));
    let mut buf = [9u8; 2];
    assert_eq!(input.read(&mut buf), Err(OsError { code: 6 }));
    assert_eq!(buf, [9u8; 2]);
    assert_eq!(input.mode, 0xF);
    assert_eq!(input.pending, b"abc".to_vec());
}

#[test]
fn memory_input_delivers_pending_bytes_in_order() {
    let mut input = MemoryInput::new(0);
    input.pending = b"abcdef".to_vec();
    let mut buf = [0u8; 4];
    assert_eq!(input.read(&mut buf), Ok(4));
    assert_eq!(&buf, b"abcd");
    assert_eq!(input.read(&mut buf), Ok(2));
    assert_eq!(&buf, b"efcd");
    assert_eq!(input.read(&mut buf), Ok(0));
    assert_eq!(input.read(&mut []), Ok(0));
    assert_eq!(input.delivered, b"abcdef".to_vec());
    assert!(input.pending.is_empty());
}

#[test]
fn memory_output_records_writes_and_syncs_on_flush() {
    let mut output = MemoryOutput::new(0x3, geometry());
    assert_eq!(output.write(b"abc"), Ok(3));
    assert_eq!(output.write(b""), Ok(0));
    assert_eq!(output.write(b"de"), Ok(2));
    assert_eq!(output.written, b"abcde".to_vec());
    assert_eq!(output.synced, 0);
    assert_eq!(output.flush(), Ok(()));
    assert_eq!(output.synced, 5);
}

#[test]
fn memory_output_takes_no_more_than_it_is_told_to() {
    let mut output = MemoryOutput::new(0x3, geometry());
    output.accept_at_most = 2;
    assert_eq!(output.write(b"abcde"), Ok(2));
    assert_eq!(output.write(b"c"), Ok(1));
    assert_eq!(output.written, b"abc".to_vec());
}

#[test]
fn memory_output_keeps_the_mode_it_is_given() {
    let mut output = MemoryOutput::new(0x3, geometry());
    assert_eq!(output.get_output_mode(), Ok(0x3));
    assert_eq!(output.set_output_mode(0xF), Ok(()));
    assert_eq!(output.get_output_mode(), Ok(0xF));
    assert!(output.written.is_empty());
}

#[test]
fn memory_output_reports_and_changes_its_geometry() {
    let mut output = MemoryOutput::new(0x3, geometry());
    assert_eq!(output.get_buffer_info(), Ok(geometry()));
    assert_eq!(output.set_cursor_position(10, 20), Ok(()));
    assert_eq!(output.set_attr(0x1F), Ok(()));
    assert_eq!(output.set_viewport(0, 5, 79, 29), Ok(()));
    let info = output.get_buffer_info().unwrap();
    assert_eq!(info.cursor_position, Coord { x: 10, y: 20 });
    assert_eq!(info.attributes, 0x1F);
    assert_eq!(info.window, SmallRect { left: 0, top: 5, right: 79, bottom: 29 });
    assert_eq!(info.size, Coord { x: 80, y: 300 });
    assert_eq!(info.maximum_window_size, Coord { x: 80, y: 25 });
}

#[test]
fn memory_output_resize_shows_the_whole_buffer() {
    let mut output = MemoryOutput::new(0x3, geometry());
    assert_eq!(output.set_buffer_size(Coord { x: 101, y: 40 }), Ok(()));
    assert_eq!(output.info.size, Coord { x: 101, y: 40 });
    assert_eq!(output.info.window, SmallRect { left: 0, top: 0, right: 100, bottom: 39 });
    assert_eq!(output.set_buffer_size(Coord { x: 0, y: 0 }), Ok(()));
    assert_eq!(output.info.window, SmallRect { left: 0, top: 0, right: -1, bottom: -1 });
}

#[test]
fn memory_output_refuses_a_negative_extent() {
    let mut output = MemoryOutput::new(0x3, geometry());
    assert_eq!(
        output.set_buffer_size(Coord { x: -1, y: 40 }),
        Err(OsError { code: ERROR_INVALID_PARAMETER })
    );
    assert_eq!(
        output.set_buffer_size(Coord { x: 10, y: i16::MIN }),
        Err(OsError { code: 87 })
    );
    assert_eq!(output.info, geometry());
}

#[test]
fn memory_output_fills_report_the_length_asked_for() {
    let mut output = MemoryOutput::new(0x3, geometry());
    assert_eq!(output.fill_char(' ', 0, 0, 2000), Ok(2000));
    assert_eq!(output.fill_attr(7, 0, 0, 80), Ok(80));
    assert!(output.written.is_empty());
    assert_eq!(output.info, geometry());
}

#[test]
fn memory_output_fails_when_told_to_and_changes_nothing() {
    let mut output = MemoryOutput::new(0x3, geometry());
    output.fault = Some(Fault { error: OsError { code: 6 }, after: 1 });
    assert_eq!(output.write(b"ok"), Ok(2));
    assert_eq!(output.write(b"no"), Err(OsError { code: 6 }));
    assert_eq!(output.flush(), Err(OsError { code: 6 }));
    assert_eq!(output.set_output_mode(0), Err(OsError { code: 6 }));
    assert_eq!(output.get_output_mode(), Err(OsError { code: 6 }));
    assert_eq!(output.get_buffer_info(), Err(OsError { code: 6 }));
    assert_eq!(output.set_buffer_size(Coord { x: 1, y: 1 }), Err(OsError { code: 6 }));
    assert_eq!(output.set_viewport(0, 0, 1, 1), Err(OsError { code: 6 }));
    assert_eq!(output.set_cursor_position(1, 1), Err(OsError { code: 6 }));
    assert_eq!(output.set_attr(1), Err(OsError { code: 6 }));
    assert_eq!(output.fill_char('x', 0, 0, 1), Err(OsError { code: 6 }));
    assert_eq!(output.fill_attr(1, 0, 0, 1), Err(OsError { code: 6 }));
    assert_eq!(output.written, b"ok".to_vec());
    assert_eq!(output.synced, 0);
    assert_eq!(output.mode, 0x3);
    assert_eq!(output.info, geometry());
}

#[test]
fn memory_stream_duplicates_are_copies() {
    let mut source = MemoryInput::new(0xF);
    source.pending = b"xy".to_vec();
    let stream = MemoryStream { tty: true, handle: source, failure: None };
    assert!(stream.is_tty());
    let mut first = stream.duplicate().unwrap();
    assert_eq!(first.set_input_mode(0), Ok(()));
    let mut buf = [0u8; 2];
    assert_eq!(first.read(&mut buf), Ok(2));
    let second = stream.duplicate().unwrap();
    assert_eq!(second.mode, 0xF);
    assert_eq!(second.pending, b"xy".to_vec());
    assert_eq!(stream.handle.mode, 0xF);
}

#[test]
fn memory_stream_fails_to_duplicate_when_told_to() {
    let stream = MemoryStream {
        tty: false,
        handle: MemoryOutput::new(0x3, geometry()),
        failure: Some(OsError { code: 8 }),
    };
    assert!(!stream.is_tty());
    assert_eq!(stream.duplicate().map(|h| h.mode), Err(OsError { code: 8 }));
    let copy = stream.clone();
    assert_eq!(copy.tty, false);
    assert_eq!(copy.failure, Some(OsError { code: 8 }));
    assert_eq!(copy.handle.mode, 0x3);
}
