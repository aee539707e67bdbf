//! The console as the backend sees it: two owned handles, the streams they
//! are duplicated from, and the renderer that draws through them.
//!
//! The backend never talks to the operating system itself. It works through
//! these traits, and what it proves about the console it proves from their
//! contracts. Each handle trait describes the state behind the handle with a
//! few specification functions; they exist for reasoning only and are never
//! called when the program runs. Their types are ordinary Rust types, so
//! that an implementation written outside the verifier can name them; such
//! an implementation has to give each of them a body, which may simply
//! refuse to run. It owes the contracts below to every caller: from it they
//! are taken on trust. The handles in `memory` are verified against them.
//!
//! The model assumes that the handle is the only party changing the modes
//! and the bytes of the console while it lives, which is how the backend
//! uses it. Geometry is different: the user may resize the window at any
//! time, so a query says what the geometry is, never what it was.

use vstd::prelude::*;
use crate::error::OsError;
use crate::geometry::{Coord, ScreenBufferInfo};

verus! {

/// The input side of a console: mode control and unbuffered reads.
pub trait ConsoleInputHandle {
    /// The mode of the console's input buffer.
    spec fn input_mode(&self) -> u32;

    /// Every byte the handle has delivered to a reader so far, oldest first.
    spec fn delivered(&self) -> Vec<u8>;

    /// Replaces the input mode. A failed call leaves the mode as it was.
    fn set_input_mode(&mut self, mode: u32) -> (r: Result<(), OsError>)
        ensures
            r is Ok ==> final(self).input_mode() == mode,
            r is Err ==> final(self).input_mode() == old(self).input_mode(),
            final(self).delivered()@ == old(self).delivered()@,
    ;

    /// Reports the input mode, which it does not change.
    fn get_input_mode(&mut self) -> (r: Result<u32, OsError>)
        ensures
            final(self).input_mode() == old(self).input_mode(),
            final(self).delivered()@ == old(self).delivered()@,
            r matches Ok(mode) ==> mode == old(self).input_mode(),
    ;

    /// Reads up to `buf.len()` bytes into the front of `buf` and returns how
    /// many arrived; blocks until there is at least one byte or the input
    /// ends. The part of `buf` behind the bytes that arrived is not touched,
    /// and a failed call delivers nothing.
    fn read(&mut self, buf: &mut [u8]) -> (r: Result<usize, OsError>)
        ensures
            final(self).input_mode() == old(self).input_mode(),
            final(buf)@.len() == old(buf)@.len(),
            r matches Ok(count) ==> {
                &&& count <= old(buf)@.len()
                &&& final(self).delivered()@ == old(self).delivered()@ + final(buf)@.take(
                    count as int,
                )
                &&& final(buf)@.skip(count as int) == old(buf)@.skip(count as int)
            },
            r is Err ==> final(self).delivered()@ == old(self).delivered()@ && final(buf)@ == old(
                buf,
            )@,
    ;
}

/// The output side of a console: mode control, writes, and the cell-level
/// operations that a renderer draws with.
pub trait ConsoleOutputHandle {
    /// The mode of the console's screen buffer.
    spec fn output_mode(&self) -> u32;

    /// Every byte the handle has accepted so far, oldest first.
    spec fn written(&self) -> Vec<u8>;

    /// How many of the accepted bytes are known to have reached the device.
    spec fn synced(&self) -> usize;

    /// The geometry, cursor and attributes of the screen buffer as the
    /// handle last knew them.
    spec fn buffer_info(&self) -> ScreenBufferInfo;

    /// Replaces the output mode. A failed call leaves the mode as it was.
    fn set_output_mode(&mut self, mode: u32) -> (r: Result<(), OsError>)
        ensures
            r is Ok ==> final(self).output_mode() == mode,
            r is Err ==> final(self).output_mode() == old(self).output_mode(),
            final(self).written()@ == old(self).written()@,
            final(self).synced() == old(self).synced(),
    ;

    /// Reports the output mode, which it does not change.
    fn get_output_mode(&mut self) -> (r: Result<u32, OsError>)
        ensures
            final(self).output_mode() == old(self).output_mode(),
            final(self).written()@ == old(self).written()@,
            final(self).synced() == old(self).synced(),
            r matches Ok(mode) ==> mode == old(self).output_mode(),
    ;

    /// Offers `buf` to the console, which accepts some front part of it and
    /// returns that part's length. A failed call accepts nothing.
    fn write(&mut self, buf: &[u8]) -> (r: Result<usize, OsError>)
        ensures
            final(self).output_mode() == old(self).output_mode(),
            final(self).synced() == old(self).synced(),
            r matches Ok(count) ==> count <= buf@.len() && final(self).written()@ == old(
                self,
            ).written()@ + buf@.take(count as int),
            r is Err ==> final(self).written()@ == old(self).written()@,
    ;

    /// Forces the accepted bytes out to the device.
    fn flush(&mut self) -> (r: Result<(), OsError>)
        ensures
            final(self).output_mode() == old(self).output_mode(),
            final(self).written()@ == old(self).written()@,
            r is Ok ==> final(self).synced() == final(self).written()@.len(),
    ;

    /// Writes `text` into `len` consecutive cells starting at column `x` of
    /// row `y`, and returns how many cells were written.
    fn fill_char(&mut self, text: char, x: i16, y: i16, len: u32) -> (r: Result<u32, OsError>);

    /// Sets the attributes of `len` consecutive cells starting at column `x`
    /// of row `y`, and returns how many cells were changed.
    fn fill_attr(&mut self, attr: u16, x: i16, y: i16, len: u32) -> (r: Result<u32, OsError>);

    /// Sets the attributes that later writes use.
    fn set_attr(&mut self, attr: u16) -> (r: Result<(), OsError>);

    /// Moves the cursor to column `x` of row `y`.
    fn set_cursor_position(&mut self, x: i16, y: i16) -> (r: Result<(), OsError>);

    /// Reports the screen buffer's geometry, cursor and attributes as they
    /// are when the console answers. The user may have resized the window
    /// since the last call: what is reported is the geometry from now on, not
    /// the geometry there was. A failed call learns nothing new.
    fn get_buffer_info(&mut self) -> (r: Result<ScreenBufferInfo, OsError>)
        ensures
            final(self).output_mode() == old(self).output_mode(),
            final(self).written()@ == old(self).written()@,
            final(self).synced() == old(self).synced(),
            r matches Ok(info) ==> final(self).buffer_info() == info,
            r is Err ==> final(self).buffer_info() == old(self).buffer_info(),
    ;

    /// Moves the window to the given rectangle of the buffer, edges inclusive.
    fn set_viewport(&mut self, left: i16, top: i16, right: i16, bottom: i16) -> (r: Result<
        (),
        OsError,
    >);

    /// Resizes the backing buffer to `size` cells. The window is left to the
    /// console. A failed call changes no geometry.
    fn set_buffer_size(&mut self, size: Coord) -> (r: Result<(), OsError>)
        ensures
            final(self).output_mode() == old(self).output_mode(),
            final(self).written()@ == old(self).written()@,
            final(self).synced() == old(self).synced(),
            r is Ok ==> final(self).buffer_info().size == size,
            r is Err ==> final(self).buffer_info() == old(self).buffer_info(),
    ;
}

/// A stream that the caller holds open and from which the backend takes a
/// handle of its own. The stream is only ever borrowed: the backend cannot
/// change or close it.
pub trait ConsoleStream {
    /// The handle that duplicating the stream gives.
    type Handle;

    /// Whether the stream is attached to an interactive terminal.
    spec fn tty_backed(&self) -> bool;

    /// Probes whether the stream is attached to an interactive terminal.
    fn is_tty(&self) -> (b: bool)
        ensures
            b == self.tty_backed(),
    ;

    /// Duplicates the stream's handle into a new one owned by the caller.
    fn duplicate(&self) -> (r: Result<Self::Handle, OsError>);
}

/// The collaborator that turns display changes into calls on the two handles.
/// The backend hands changes through without looking at them.
pub trait ConsoleRenderer: Sized {
    /// Description of the terminal features the renderer may rely on.
    type Capabilities;

    /// One display change: a text run, a cursor move, an attribute change, a clear.
    type Change;

    /// What the renderer reports when it cannot render.
    type Failure;

    /// Builds a renderer for a terminal with the given capabilities.
    fn new(caps: Self::Capabilities) -> (renderer: Self);

    /// Applies `changes`, in order, to the console behind the two handles.
    fn render_to<I: ConsoleInputHandle, O: ConsoleOutputHandle>(
        &mut self,
        changes: &[Self::Change],
        input: &mut I,
        output: &mut O,
    ) -> (r: Result<(), Self::Failure>);
}

/// The most bytes a single console read or write call can be asked to move.
pub const MAX_TRANSFER: u32 = 0xffff_ffff;

/// The length to pass to a console call for a buffer of `len` bytes: the
/// whole buffer, or as much of it as one call can express.
pub fn transfer_len(len: usize) -> (n: u32)
    ensures
        n == vstd::math::min(len as int, MAX_TRANSFER as int),
{
    if len > 0xffff_ffff {
        MAX_TRANSFER
    } else {
        len as u32
    }
}

/// The UTF-16 code unit that a fill writes for `text`: the character itself
/// in the basic plane, and the low sixteen bits of its code point beyond.
pub fn fill_unit(text: char) -> (unit: u16)
    ensures
        unit == (text as u32) % 0x1_0000,
{
    let code: u32 = text as u32;
    (code % 0x1_0000) as u16
}

} // verus!
