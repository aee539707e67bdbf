//! The terminal backend: both console handles, the buffered writer and the
//! renderer behind one object, which remembers the modes it found and puts
//! them back when it is told to let go.
//!
//! Every operation's contract has two parts. One says what the operation
//! does to the console as the device model describes it: modes, bytes
//! written, geometry. The other names the calls that the operation makes on
//! its handles, in order, each with the state it finds and the state it
//! leaves, and says what the operation returns for each way those calls can
//! end. Nothing is returned that the handles did not decide: an operation
//! fails only where a call failed, and with that call's code.

use vstd::prelude::*;
use crate::buffer::{absorbs, model_flush, model_write, OutputStream, WriteBuffer};
use crate::device::{ConsoleInputHandle, ConsoleOutputHandle, ConsoleRenderer, ConsoleStream};
use crate::error::{ConsoleError, GeometryFault, OsError, Side};
use crate::geometry::{
    buffer_extent,
    reported_size,
    spec_buffer_extent,
    spec_reported_size,
    spec_visible_size,
    ScreenBufferInfo,
    ScreenSize,
};
use crate::mode::{raw_mode_of, vt_input_mode_of, vt_output_mode_of, ModeChange, Modes};

verus! {

/// Capacity of the output buffer of every terminal.
pub const BUF_SIZE: usize = 128;

/// A terminal on a console device.
///
/// The two saved modes are read once, when the terminal is made and before it
/// changes anything, and no operation alters them afterwards.
pub struct WindowsTerminal<I: ConsoleInputHandle, O: ConsoleOutputHandle, R: ConsoleRenderer> {
    input_handle: I,
    output_handle: O,
    write_buffer: WriteBuffer,
    saved_input_mode: u32,
    saved_output_mode: u32,
    renderer: R,
}

impl<I: ConsoleInputHandle, O: ConsoleOutputHandle, R: ConsoleRenderer> WindowsTerminal<I, O, R> {
    /// The input handle that the terminal owns.
    pub closed spec fn input(&self) -> I {
        self.input_handle
    }

    /// The output handle that the terminal owns.
    pub closed spec fn output(&self) -> O {
        self.output_handle
    }

    /// The renderer that the terminal owns.
    pub closed spec fn renderer(&self) -> R {
        self.renderer
    }

    /// The buffer in front of the output handle.
    pub closed spec fn writer(&self) -> WriteBuffer {
        self.write_buffer
    }

    /// The input mode found when the terminal was made.
    pub closed spec fn saved_input(&self) -> u32 {
        self.saved_input_mode
    }

    /// The output mode found when the terminal was made.
    pub closed spec fn saved_output(&self) -> u32 {
        self.saved_output_mode
    }

    /// The bytes written to the terminal that have not been sent to the console.
    pub open spec fn buffered(&self) -> Seq<u8> {
        self.writer().buffered()
    }

    /// The most bytes the terminal ever holds back.
    pub open spec fn limit(&self) -> nat {
        self.writer().limit()
    }

    /// The terminal never holds back more bytes than its limit.
    pub open spec fn wf(&self) -> bool {
        self.writer().wf()
    }

    /// The modes in force on the console, and the ones the terminal saved.
    pub open spec fn modes(&self) -> Modes {
        Modes {
            input: self.input().input_mode(),
            output: self.output().output_mode(),
            saved_input: self.saved_input(),
            saved_output: self.saved_output(),
        }
    }

    /// The terminal's output stream: what the console has accepted, and what
    /// still waits in the terminal.
    pub open spec fn stream(&self) -> OutputStream {
        OutputStream { written: self.output().written()@, buffered: self.buffered() }
    }

    /// Makes a terminal on the console behind two open streams.
    ///
    /// Both streams must be attached to an interactive terminal. They are
    /// borrowed: the terminal works on duplicates and the caller's streams
    /// stay open and as they were. The input stream is duplicated first, then
    /// the output stream; then the input mode is read, then the output mode,
    /// before anything else is done with the new handles. The first step that
    /// fails ends the attempt, and handles already taken are let go.
    pub fn new_with<A, B>(caps: R::Capabilities, read: &A, write: &B) -> (r: Result<
        Self,
        ConsoleError,
    >) where A: ConsoleStream<Handle = I>, B: ConsoleStream<Handle = O>
        ensures
            r matches Ok(terminal) ==> {
                &&& terminal.wf()
                &&& terminal.buffered() == Seq::<u8>::empty()
                &&& terminal.limit() == BUF_SIZE
                &&& terminal.modes() == Modes::fresh(
                    terminal.input().input_mode(),
                    terminal.output().output_mode(),
                )
            },
            !(read.tty_backed() && write.tty_backed()) ==> (r matches Err(e) && e
                == ConsoleError::NotATty),
            read.tty_backed() && write.tty_backed() ==> exists|taken_in: Result<I, OsError>| {
                &&& #[trigger] call_ensures(A::duplicate, (read,), taken_in)
                &&& match taken_in {
                    Err(code) => r matches Err(e) && e == ConsoleError::Acquisition(Side::Input, code),
                    Ok(input) => exists|taken_out: Result<O, OsError>| {
                        &&& #[trigger] call_ensures(B::duplicate, (write,), taken_out)
                        &&& match taken_out {
                            Err(code) => r matches Err(e) && e == ConsoleError::Acquisition(
                                Side::Output,
                                code,
                            ),
                            Ok(output) => exists|get_in: &mut I, got_in: Result<u32, OsError>| {
                                &&& *get_in == input
                                &&& #[trigger] call_ensures(I::get_input_mode, (get_in,), got_in)
                                &&& match got_in {
                                    Err(code) => r matches Err(e) && e == ConsoleError::Mode(
                                        Side::Input,
                                        code,
                                    ),
                                    Ok(mode_in) => exists|
                                        get_out: &mut O,
                                        got_out: Result<u32, OsError>,
                                    | {
                                        &&& *get_out == output
                                        &&& #[trigger] call_ensures(
                                            O::get_output_mode,
                                            (get_out,),
                                            got_out,
                                        )
                                        &&& match got_out {
                                            Err(code) => r matches Err(e) && e
                                                == ConsoleError::Mode(Side::Output, code),
                                            Ok(mode_out) => {
                                                &&& r matches Ok(terminal)
                                                &&& terminal.input() == *final(get_in)
                                                &&& terminal.output() == *final(get_out)
                                                &&& terminal.saved_input() == mode_in
                                                &&& terminal.saved_output() == mode_out
                                                &&& call_ensures(
                                                    R::new,
                                                    (caps,),
                                                    terminal.renderer(),
                                                )
                                            },
                                        }
                                    },
                                }
                            },
                        }
                    },
                }
            },
    {
        if !read.is_tty() || !write.is_tty() {
            return Err(ConsoleError::NotATty);
        }
        let mut input_handle = match read.duplicate() {
            Ok(handle) => handle,
            Err(e) => {
                return Err(ConsoleError::Acquisition(Side::Input, e));
            },
        };
        let mut output_handle = match write.duplicate() {
            Ok(handle) => handle,
            Err(e) => {
                return Err(ConsoleError::Acquisition(Side::Output, e));
            },
        };
        let saved_input_mode = match input_handle.get_input_mode() {
            Ok(mode) => mode,
            Err(e) => {
                return Err(ConsoleError::Mode(Side::Input, e));
            },
        };
        let saved_output_mode = match output_handle.get_output_mode() {
            Ok(mode) => mode,
            Err(e) => {
                return Err(ConsoleError::Mode(Side::Output, e));
            },
        };
        let renderer = R::new(caps);
        Ok(
            WindowsTerminal {
                input_handle,
                output_handle,
                saved_input_mode,
                saved_output_mode,
                renderer,
                write_buffer: WriteBuffer::new(BUF_SIZE),
            },
        )
    }

    /// Switches the console to virtual-terminal processing: the output side
    /// interprets escape sequences and stops adding carriage returns, the
    /// input side reports keys as escape sequences.
    ///
    /// Each side is read, changed and written back in turn, output first. If
    /// the input side fails, the change already made on the output side stays.
    pub fn enable_virtual_terminal_processing(&mut self) -> (r: Result<(), ConsoleError>)
        ensures
            final(self).saved_input() == old(self).saved_input(),
            final(self).saved_output() == old(self).saved_output(),
            final(self).renderer() == old(self).renderer(),
            final(self).writer() == old(self).writer(),
            final(self).stream() == old(self).stream(),
            final(self).input().delivered()@ == old(self).input().delivered()@,
            match r {
                Ok(()) => final(self).modes() == old(self).modes().apply(
                    ModeChange::VirtualTerminal,
                ),
                Err(e) => {
                    &&& final(self).input().input_mode() == old(self).input().input_mode()
                    &&& e matches ConsoleError::Mode(side, _)
                    &&& side == Side::Output ==> final(self).output().output_mode() == old(
                        self,
                    ).output().output_mode()
                    &&& side == Side::Input ==> final(self).output().output_mode()
                        == vt_output_mode_of(old(self).output().output_mode())
                },
            },
            exists|get_out: &mut O, got_out: Result<u32, OsError>| {
                &&& *get_out == old(self).output()
                &&& #[trigger] call_ensures(O::get_output_mode, (get_out,), got_out)
                &&& match got_out {
                    Err(code) => {
                        &&& *final(get_out) == final(self).output()
                        &&& final(self).input() == old(self).input()
                        &&& r == Err::<(), ConsoleError>(ConsoleError::Mode(Side::Output, code))
                    },
                    Ok(mode_out) => exists|set_out: &mut O, done_out: Result<(), OsError>| {
                        &&& *set_out == *final(get_out)
                        &&& #[trigger] call_ensures(
                            O::set_output_mode,
                            (set_out, vt_output_mode_of(mode_out)),
                            done_out,
                        )
                        &&& *final(set_out) == final(self).output()
                        &&& match done_out {
                            Err(code) => {
                                &&& final(self).input() == old(self).input()
                                &&& r == Err::<(), ConsoleError>(
                                    ConsoleError::Mode(Side::Output, code),
                                )
                            },
                            Ok(_) => exists|get_in: &mut I, got_in: Result<u32, OsError>| {
                                &&& *get_in == old(self).input()
                                &&& #[trigger] call_ensures(I::get_input_mode, (get_in,), got_in)
                                &&& match got_in {
                                    Err(code) => {
                                        &&& *final(get_in) == final(self).input()
                                        &&& r == Err::<(), ConsoleError>(
                                            ConsoleError::Mode(Side::Input, code),
                                        )
                                    },
                                    Ok(mode_in) => exists|
                                        set_in: &mut I,
                                        done_in: Result<(), OsError>,
                                    | {
                                        &&& *set_in == *final(get_in)
                                        &&& #[trigger] call_ensures(
                                            I::set_input_mode,
                                            (set_in, vt_input_mode_of(mode_in)),
                                            done_in,
                                        )
                                        &&& *final(set_in) == final(self).input()
                                        &&& ConsoleError::reports_mode_call(
                                            r,
                                            Side::Input,
                                            done_in,
                                        )
                                    },
                                }
                            },
                        }
                    },
                }
            },
    {
        let mode = match self.output_handle.get_output_mode() {
            Ok(mode) => mode,
            Err(e) => {
                return Err(ConsoleError::Mode(Side::Output, e));
            },
        };
        match self.output_handle.set_output_mode(vt_output_mode_of(mode)) {
            Ok(()) => {},
            Err(e) => {
                return Err(ConsoleError::Mode(Side::Output, e));
            },
        }
        let mode = match self.input_handle.get_input_mode() {
            Ok(mode) => mode,
            Err(e) => {
                return Err(ConsoleError::Mode(Side::Input, e));
            },
        };
        match self.input_handle.set_input_mode(vt_input_mode_of(mode)) {
            Ok(()) => Ok(()),
            Err(e) => Err(ConsoleError::Mode(Side::Input, e)),
        }
    }

    /// Switches the input side to raw mode: no echo, no line buffering, no
    /// signals from control characters. Every other bit of the mode is kept.
    /// The mode is read, and what was read is written back without the three
    /// bits.
    pub fn set_raw_mode(&mut self) -> (r: Result<(), ConsoleError>)
        ensures
            final(self).saved_input() == old(self).saved_input(),
            final(self).saved_output() == old(self).saved_output(),
            final(self).renderer() == old(self).renderer(),
            final(self).writer() == old(self).writer(),
            final(self).output() == old(self).output(),
            final(self).input().delivered()@ == old(self).input().delivered()@,
            match r {
                Ok(()) => final(self).modes() == old(self).modes().apply(ModeChange::RawMode),
                Err(e) => {
                    &&& final(self).input().input_mode() == old(self).input().input_mode()
                    &&& e matches ConsoleError::Mode(side, _) && side == Side::Input
                },
            },
            exists|get: &mut I, got: Result<u32, OsError>| {
                &&& *get == old(self).input()
                &&& #[trigger] call_ensures(I::get_input_mode, (get,), got)
                &&& match got {
                    Err(code) => {
                        &&& *final(get) == final(self).input()
                        &&& r == Err::<(), ConsoleError>(ConsoleError::Mode(Side::Input, code))
                    },
                    Ok(mode) => exists|set: &mut I, done: Result<(), OsError>| {
                        &&& *set == *final(get)
                        &&& #[trigger] call_ensures(
                            I::set_input_mode,
                            (set, raw_mode_of(mode)),
                            done,
                        )
                        &&& *final(set) == final(self).input()
                        &&& ConsoleError::reports_mode_call(r, Side::Input, done)
                    },
                }
            },
    {
        let mode = match self.input_handle.get_input_mode() {
            Ok(mode) => mode,
            Err(e) => {
                return Err(ConsoleError::Mode(Side::Input, e));
            },
        };
        match self.input_handle.set_input_mode(raw_mode_of(mode)) {
            Ok(()) => Ok(()),
            Err(e) => Err(ConsoleError::Mode(Side::Input, e)),
        }
    }

    /// Puts both sides of the console back into the modes found when the
    /// terminal was made. This is what must happen before the terminal lets
    /// go of its handles.
    ///
    /// Both sides are attempted, input first, whatever the first attempt
    /// returns. The result is `Ok` when both went through. When the input
    /// side failed, the error names the input side and carries its code,
    /// whether or not the output side failed too; when only the output side
    /// failed, the error names the output side.
    pub fn restore_modes(&mut self) -> (r: Result<(), ConsoleError>)
        ensures
            final(self).saved_input() == old(self).saved_input(),
            final(self).saved_output() == old(self).saved_output(),
            final(self).renderer() == old(self).renderer(),
            final(self).writer() == old(self).writer(),
            final(self).stream() == old(self).stream(),
            final(self).input().delivered()@ == old(self).input().delivered()@,
            match r {
                Ok(()) => final(self).modes() == old(self).modes().restored(),
                Err(e) => {
                    &&& e matches ConsoleError::Mode(side, _)
                    &&& side == Side::Input ==> final(self).input().input_mode() == old(
                        self,
                    ).input().input_mode()
                    &&& side == Side::Output ==> final(self).input().input_mode() == old(
                        self,
                    ).saved_input() && final(self).output().output_mode() == old(
                        self,
                    ).output().output_mode()
                },
            },
            exists|
                set_in: &mut I,
                done_in: Result<(), OsError>,
                set_out: &mut O,
                done_out: Result<(), OsError>,
            | {
                &&& *set_in == old(self).input()
                &&& #[trigger] call_ensures(
                    I::set_input_mode,
                    (set_in, old(self).saved_input()),
                    done_in,
                )
                &&& *final(set_in) == final(self).input()
                &&& *set_out == old(self).output()
                &&& #[trigger] call_ensures(
                    O::set_output_mode,
                    (set_out, old(self).saved_output()),
                    done_out,
                )
                &&& *final(set_out) == final(self).output()
                &&& match done_in {
                    Err(code) => r == Err::<(), ConsoleError>(
                        ConsoleError::Mode(Side::Input, code),
                    ),
                    Ok(_) => ConsoleError::reports_mode_call(r, Side::Output, done_out),
                }
            },
    {
        assert(self.saved_input_mode == old(self).saved_input());
        assert(self.saved_output_mode == old(self).saved_output());
        let input_done = self.input_handle.set_input_mode(self.saved_input_mode);
        let output_done = self.output_handle.set_output_mode(self.saved_output_mode);
        match input_done {
            Err(e) => Err(ConsoleError::Mode(Side::Input, e)),
            Ok(()) => match output_done {
                Ok(()) => Ok(()),
                Err(e) => Err(ConsoleError::Mode(Side::Output, e)),
            },
        }
    }

    /// Reads from the console into the front of `buf` and returns how many
    /// bytes arrived. The read is the input handle's own, on the same
    /// buffer: nothing is buffered on the way, what waits to be written is
    /// not flushed first, and the output side is not involved.
    pub fn read(&mut self, buf: &mut [u8]) -> (r: Result<usize, ConsoleError>)
        ensures
            final(self).saved_input() == old(self).saved_input(),
            final(self).saved_output() == old(self).saved_output(),
            final(self).renderer() == old(self).renderer(),
            final(self).writer() == old(self).writer(),
            final(self).output() == old(self).output(),
            final(self).input().input_mode() == old(self).input().input_mode(),
            final(buf)@.len() == old(buf)@.len(),
            match r {
                Ok(count) => {
                    &&& count <= old(buf)@.len()
                    &&& final(self).input().delivered()@ == old(self).input().delivered()@
                        + final(buf)@.take(count as int)
                    &&& final(buf)@.skip(count as int) == old(buf)@.skip(count as int)
                },
                Err(e) => {
                    &&& final(self).input().delivered()@ == old(self).input().delivered()@
                    &&& final(buf)@ == old(buf)@
                },
            },
            exists|from: &mut I, into: &mut [u8], got: Result<usize, OsError>| {
                &&& *from == old(self).input()
                &&& into@ == old(buf)@
                &&& #[trigger] call_ensures(I::read, (from, into), got)
                &&& *final(from) == final(self).input()
                &&& final(into)@ == final(buf)@
                &&& r == ConsoleError::of_transfer(Side::Input, got)
            },
    {
        match self.input_handle.read(buf) {
            Ok(count) => Ok(count),
            Err(e) => Err(ConsoleError::Io(Side::Input, e)),
        }
    }

    /// Writes `data` to the terminal's output stream and returns how many of
    /// its bytes were taken. This is the write of the terminal's buffer on
    /// the terminal's output handle.
    ///
    /// Data that fits beside what already waits, and is smaller than the
    /// buffer, is held back and cannot fail. Any other write first flushes
    /// what waits; data at least as large as the buffer then goes to the
    /// console directly, and smaller data is held back.
    pub fn write(&mut self, data: &[u8]) -> (r: Result<usize, ConsoleError>)
        requires
            old(self).wf(),
        ensures
            final(self).wf(),
            final(self).saved_input() == old(self).saved_input(),
            final(self).saved_output() == old(self).saved_output(),
            final(self).renderer() == old(self).renderer(),
            final(self).input() == old(self).input(),
            final(self).limit() == old(self).limit(),
            final(self).output().output_mode() == old(self).output().output_mode(),
            old(self).output().written()@.is_prefix_of(final(self).output().written()@),
            absorbs(old(self).buffered().len(), old(self).limit(), data@.len()) ==> {
                &&& r == Ok::<usize, ConsoleError>(data@.len() as usize)
                &&& final(self).output() == old(self).output()
                &&& final(self).buffered() == old(self).buffered() + data@
            },
            match r {
                Ok(count) => {
                    &&& count <= data@.len()
                    &&& final(self).stream().submitted() == old(self).stream().submitted()
                        + data@.take(count as int)
                    &&& count == data@.len() ==> final(self).stream() == model_write(
                        old(self).stream(),
                        old(self).limit(),
                        data@,
                    )
                    &&& data@.len() >= old(self).limit() ==> final(self).buffered().len() == 0
                    &&& data@.len() < old(self).limit() ==> count == data@.len()
                },
                Err(e) => final(self).stream().submitted() == old(self).stream().submitted(),
            },
            exists|buffer: &mut WriteBuffer, device: &mut O, offered: &[u8]| {
                &&& *buffer == old(self).writer()
                &&& *device == old(self).output()
                &&& offered@ == data@
                &&& #[trigger] call_ensures(WriteBuffer::write::<O>, (buffer, device, offered), r)
                &&& *final(buffer) == final(self).writer()
                &&& *final(device) == final(self).output()
            },
    {
        self.write_buffer.write(&mut self.output_handle, data)
    }

    /// Sends everything that waits to the console and then flushes the
    /// console itself, which happens even when nothing was waiting. When this
    /// returns `Ok`, every byte written so far has reached the device. This
    /// is the flush of the terminal's buffer on the terminal's output handle.
    pub fn flush(&mut self) -> (r: Result<(), ConsoleError>)
        requires
            old(self).wf(),
        ensures
            final(self).wf(),
            final(self).saved_input() == old(self).saved_input(),
            final(self).saved_output() == old(self).saved_output(),
            final(self).renderer() == old(self).renderer(),
            final(self).input() == old(self).input(),
            final(self).limit() == old(self).limit(),
            final(self).output().output_mode() == old(self).output().output_mode(),
            final(self).stream().submitted() == old(self).stream().submitted(),
            old(self).output().written()@.is_prefix_of(final(self).output().written()@),
            r is Ok ==> final(self).stream() == model_flush(old(self).stream()),
            r is Ok ==> final(self).output().synced() == final(self).output().written()@.len(),
            exists|buffer: &mut WriteBuffer, device: &mut O| {
                &&& *buffer == old(self).writer()
                &&& *device == old(self).output()
                &&& #[trigger] call_ensures(WriteBuffer::flush::<O>, (buffer, device), r)
                &&& *final(buffer) == final(self).writer()
                &&& *final(device) == final(self).output()
            },
    {
        self.write_buffer.flush(&mut self.output_handle)
    }

    /// Asks the console for its geometry and reports the size of the visible
    /// window, with one column left out. Nothing is cached: every call asks
    /// again, and two calls in a row may report different sizes. Pixel sizes
    /// are not known here and are reported as zero.
    pub fn get_screen_size(&mut self) -> (r: Result<ScreenSize, ConsoleError>)
        ensures
            final(self).saved_input() == old(self).saved_input(),
            final(self).saved_output() == old(self).saved_output(),
            final(self).renderer() == old(self).renderer(),
            final(self).writer() == old(self).writer(),
            final(self).input() == old(self).input(),
            final(self).stream() == old(self).stream(),
            final(self).output().output_mode() == old(self).output().output_mode(),
            r matches Ok(size) ==> spec_visible_size(final(self).output().buffer_info().window)
                == Some(size),
            r matches Err(e) ==> e matches ConsoleError::Geometry(fault) && (fault is Os
                ==> final(self).output().buffer_info() == old(self).output().buffer_info()),
            exists|query: &mut O, answer: Result<ScreenBufferInfo, OsError>| {
                &&& *query == old(self).output()
                &&& #[trigger] call_ensures(O::get_buffer_info, (query,), answer)
                &&& *final(query) == final(self).output()
                &&& r == spec_reported_size(answer)
            },
    {
        reported_size(self.output_handle.get_buffer_info())
    }

    /// Asks the console to resize its backing buffer for `size`: the rows as
    /// given, and one column more than given. The visible window is not
    /// resized. Pixel sizes are ignored. A size that does not fit the
    /// console's coordinates is refused before the console is asked.
    pub fn set_screen_size(&mut self, size: ScreenSize) -> (r: Result<(), ConsoleError>)
        ensures
            final(self).saved_input() == old(self).saved_input(),
            final(self).saved_output() == old(self).saved_output(),
            final(self).renderer() == old(self).renderer(),
            final(self).writer() == old(self).writer(),
            final(self).input() == old(self).input(),
            final(self).stream() == old(self).stream(),
            final(self).output().output_mode() == old(self).output().output_mode(),
            r is Ok ==> spec_buffer_extent(size) == Some(final(self).output().buffer_info().size),
            r is Err ==> final(self).output().buffer_info() == old(self).output().buffer_info(),
            match spec_buffer_extent(size) {
                None => {
                    &&& final(self).output() == old(self).output()
                    &&& r == Err::<(), ConsoleError>(
                        ConsoleError::Geometry(GeometryFault::OutOfRange),
                    )
                },
                Some(extent) => exists|resize: &mut O, done: Result<(), OsError>| {
                    &&& *resize == old(self).output()
                    &&& #[trigger] call_ensures(O::set_buffer_size, (resize, extent), done)
                    &&& *final(resize) == final(self).output()
                    &&& ConsoleError::reports_resize(r, done)
                },
            },
    {
        let extent = match buffer_extent(size) {
            Ok(extent) => extent,
            Err(fault) => {
                return Err(ConsoleError::Geometry(fault));
            },
        };
        match self.output_handle.set_buffer_size(extent) {
            Ok(()) => Ok(()),
            Err(e) => Err(ConsoleError::Geometry(GeometryFault::Os(e))),
        }
    }

    /// Hands `changes` to the renderer together with both handles, and
    /// returns the renderer's verdict as it is. The terminal does not look at
    /// the changes. The renderer writes to the console directly: bytes that
    /// wait in the terminal's buffer stay there.
    pub fn render(&mut self, changes: &[R::Change]) -> (r: Result<(), R::Failure>)
        ensures
            final(self).saved_input() == old(self).saved_input(),
            final(self).saved_output() == old(self).saved_output(),
            final(self).writer() == old(self).writer(),
            exists|renderer: &mut R, handed: &[R::Change], input: &mut I, output: &mut O| {
                &&& *renderer == old(self).renderer()
                &&& handed@ == changes@
                &&& *input == old(self).input()
                &&& *output == old(self).output()
                &&& #[trigger] call_ensures(
                    R::render_to::<I, O>,
                    (renderer, handed, input, output),
                    r,
                )
                &&& *final(renderer) == final(self).renderer()
                &&& *final(input) == final(self).input()
                &&& *final(output) == final(self).output()
            },
    {
        self.renderer.render_to(changes, &mut self.input_handle, &mut self.output_handle)
    }

    /// The input handle, to look at.
    pub fn input_handle(&self) -> (handle: &I)
        ensures
            *handle == self.input(),
    {
        &self.input_handle
    }

    /// The output handle, to look at.
    pub fn output_handle(&self) -> (handle: &O)
        ensures
            *handle == self.output(),
    {
        &self.output_handle
    }

    /// The input mode found when the terminal was made.
    pub fn saved_input_mode(&self) -> (mode: u32)
        ensures
            mode == self.saved_input(),
    {
        self.saved_input_mode
    }

    /// The output mode found when the terminal was made.
    pub fn saved_output_mode(&self) -> (mode: u32)
        ensures
            mode == self.saved_output(),
    {
        self.saved_output_mode
    }

    /// The most bytes the terminal ever holds back.
    pub fn capacity(&self) -> (n: usize)
        ensures
            n == self.limit(),
    {
        self.write_buffer.capacity()
    }

    /// The bytes written to the terminal that still wait to be sent.
    pub fn pending_output(&self) -> (bytes: &[u8])
        ensures
            bytes@ == self.buffered(),
    {
        self.write_buffer.as_slice()
    }
}

} // verus!
