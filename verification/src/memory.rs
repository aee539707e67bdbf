//! A console that lives in memory.
//!
//! These handles implement the device traits on plain data, and are verified
//! against the traits' contracts. They serve where no console is at hand:
//! a value can be set up in any state, told when to fail, and looked at
//! afterwards. The cell grid is not modelled: fills report success and
//! change nothing.

use vstd::prelude::*;
use vstd::slice::slice_subrange;
use crate::device::{ConsoleInputHandle, ConsoleOutputHandle, ConsoleStream};
use crate::error::OsError;
use crate::geometry::{Coord, ScreenBufferInfo, SmallRect};

verus! {

/// The code with which the in-memory console refuses an argument.
pub const ERROR_INVALID_PARAMETER: i32 = 87;

/// A failure that lies ahead: once `after` more operations have gone
/// through, every operation fails with `error` and changes nothing.
#[derive(Clone, Copy, Debug, PartialEq, Eq, Structural)]
pub struct Fault {
    pub error: OsError,
    pub after: usize,
}

/// The input side of an in-memory console.
#[derive(Debug)]
pub struct MemoryInput {
    /// The input mode in force.
    pub mode: u32,
    /// The bytes that reads will deliver, oldest first.
    pub pending: Vec<u8>,
    /// The bytes that reads have delivered, oldest first.
    pub delivered: Vec<u8>,
    /// The failure that lies ahead, if any.
    pub fault: Option<Fault>,
}

/// The output side of an in-memory console.
#[derive(Debug)]
pub struct MemoryOutput {
    /// The output mode in force.
    pub mode: u32,
    /// Every byte accepted so far, oldest first.
    pub written: Vec<u8>,
    /// How many of the accepted bytes had been accepted at the last flush.
    pub synced: usize,
    /// The geometry, cursor and attributes that a query reports.
    pub info: ScreenBufferInfo,
    /// The most bytes a single write accepts.
    pub accept_at_most: usize,
    /// The failure that lies ahead, if any.
    pub fault: Option<Fault>,
}

/// A stream from which handles of type `H` can be duplicated: every
/// duplicate is a copy of `handle` as it is at that moment.
#[derive(Debug)]
pub struct MemoryStream<H> {
    /// Whether the stream passes for an interactive terminal.
    pub tty: bool,
    /// The handle that duplicates are copied from.
    pub handle: H,
    /// While set, duplication fails with this error.
    pub failure: Option<OsError>,
}

/// The error with which the next operation fails, if it does.
pub open spec fn due(fault: Option<Fault>) -> Option<OsError> {
    match fault {
        Some(f) => if f.after == 0 {
            Some(f.error)
        } else {
            None
        },
        None => None,
    }
}

/// What lies ahead once one more operation has gone through.
pub open spec fn ticked(fault: Option<Fault>) -> Option<Fault> {
    match fault {
        Some(f) => if f.after == 0 {
            fault
        } else {
            Some(Fault { error: f.error, after: (f.after - 1) as usize })
        },
        None => None,
    }
}

/// Counts one operation against `fault` and says whether it fails.
pub fn tick(fault: &mut Option<Fault>) -> (r: Result<(), OsError>)
    ensures
        *final(fault) == ticked(*old(fault)),
        due(*old(fault)) matches Some(e) ==> r == Err::<(), OsError>(e) && *final(fault) == *old(
            fault,
        ),
        due(*old(fault)) is None ==> r is Ok,
{
    match *fault {
        Some(f) => {
            if f.after == 0 {
                Err(f.error)
            } else {
                *fault = Some(Fault { error: f.error, after: f.after - 1 });
                Ok(())
            }
        },
        None => Ok(()),
    }
}

impl Clone for MemoryInput {
    fn clone(&self) -> (copy: MemoryInput)
        ensures
            copy.same_state(self),
    {
        MemoryInput {
            mode: self.mode,
            pending: self.pending.clone(),
            delivered: self.delivered.clone(),
            fault: self.fault,
        }
    }
}

impl Clone for MemoryOutput {
    fn clone(&self) -> (copy: MemoryOutput)
        ensures
            copy.same_state(self),
    {
        MemoryOutput {
            mode: self.mode,
            written: self.written.clone(),
            synced: self.synced,
            info: self.info,
            accept_at_most: self.accept_at_most,
            fault: self.fault,
        }
    }
}

impl<H: Clone> Clone for MemoryStream<H> {
    fn clone(&self) -> (copy: MemoryStream<H>)
        ensures
            copy.tty == self.tty,
            copy.failure == self.failure,
            cloned(self.handle, copy.handle),
    {
        MemoryStream { tty: self.tty, handle: self.handle.clone(), failure: self.failure }
    }
}

impl MemoryInput {
    /// Both values describe the same console input: same mode, same bytes,
    /// same failure ahead.
    pub open spec fn same_state(&self, other: &MemoryInput) -> bool {
        &&& self.mode == other.mode
        &&& self.pending@ == other.pending@
        &&& self.delivered@ == other.delivered@
        &&& self.fault == other.fault
    }

    /// The state after an operation that went through and changed nothing else.
    pub open spec fn after_call(self) -> MemoryInput {
        MemoryInput { fault: ticked(self.fault), ..self }
    }

    /// An input side in the given mode, with nothing to read, that does not fail.
    pub fn new(mode: u32) -> (input: MemoryInput)
        ensures
            input.mode == mode,
            input.pending@ == Seq::<u8>::empty(),
            input.delivered@ == Seq::<u8>::empty(),
            input.fault is None,
    {
        MemoryInput { mode, pending: Vec::new(), delivered: Vec::new(), fault: None }
    }
}

impl MemoryOutput {
    /// Both values describe the same console output: same mode, same bytes,
    /// same geometry, same limits, same failure ahead.
    pub open spec fn same_state(&self, other: &MemoryOutput) -> bool {
        &&& self.mode == other.mode
        &&& self.written@ == other.written@
        &&& self.synced == other.synced
        &&& self.info == other.info
        &&& self.accept_at_most == other.accept_at_most
        &&& self.fault == other.fault
    }

    /// The state after an operation that went through and changed nothing else.
    pub open spec fn after_call(self) -> MemoryOutput {
        MemoryOutput { fault: ticked(self.fault), ..self }
    }

    /// An output side in the given mode and geometry that has accepted
    /// nothing yet, takes writes whole and does not fail.
    pub fn new(mode: u32, info: ScreenBufferInfo) -> (output: MemoryOutput)
        ensures
            output.mode == mode,
            output.info == info,
            output.written@ == Seq::<u8>::empty(),
            output.synced == 0,
            output.accept_at_most == usize::MAX,
            output.fault is None,
    {
        MemoryOutput {
            mode,
            written: Vec::new(),
            synced: 0,
            info,
            accept_at_most: usize::MAX,
            fault: None,
        }
    }
}

impl ConsoleInputHandle for MemoryInput {
    open spec fn input_mode(&self) -> u32 {
        self.mode
    }

    open spec fn delivered(&self) -> Vec<u8> {
        self.delivered
    }

    fn set_input_mode(&mut self, mode: u32) -> (r: Result<(), OsError>)
        ensures
            due(old(self).fault) matches Some(e) ==> r == Err::<(), OsError>(e) && *final(self)
                == *old(self),
            due(old(self).fault) is None ==> r is Ok && *final(self) == (MemoryInput {
                mode,
                ..old(self).after_call()
            }),
    {
        match tick(&mut self.fault) {
            Ok(()) => {
                self.mode = mode;
                Ok(())
            },
            Err(e) => Err(e),
        }
    }

    fn get_input_mode(&mut self) -> (r: Result<u32, OsError>)
        ensures
            due(old(self).fault) matches Some(e) ==> r == Err::<u32, OsError>(e) && *final(self)
                == *old(self),
            due(old(self).fault) is None ==> r is Ok && *final(self) == old(self).after_call(),
    {
        match tick(&mut self.fault) {
            Ok(()) => Ok(self.mode),
            Err(e) => Err(e),
        }
    }

    /// Delivers the oldest pending bytes, as many as `buf` takes and the
    /// record of delivered bytes has room for. With nothing pending the input
    /// has ended and the count is zero.
    fn read(&mut self, buf: &mut [u8]) -> (r: Result<usize, OsError>)
        ensures
            due(old(self).fault) matches Some(e) ==> r == Err::<usize, OsError>(e) && *final(self)
                == *old(self),
            due(old(self).fault) is None ==> {
                &&& r matches Ok(count)
                &&& count == vstd::math::min(
                    vstd::math::min(old(buf)@.len() as int, old(self).pending@.len() as int),
                    usize::MAX - old(self).delivered@.len(),
                )
                &&& final(buf)@.take(count as int) == old(self).pending@.take(count as int)
                &&& final(self).pending@ == old(self).pending@.skip(count as int)
                &&& final(self).fault == ticked(old(self).fault)
            },
    {
        match tick(&mut self.fault) {
            Ok(()) => {},
            Err(e) => {
                return Err(e);
            },
        }
        let room: usize = usize::MAX - self.delivered.len();
        let mut count: usize = buf.len();
        if self.pending.len() < count {
            count = self.pending.len();
        }
        if room < count {
            count = room;
        }
        let ghost start = *self;
        let mut i: usize = 0;
        while i < count
            invariant
                i <= count,
                count <= buf@.len(),
                count <= self.pending@.len(),
                buf@.len() == old(buf)@.len(),
                *self == start,
                buf@ =~= self.pending@.take(i as int) + old(buf)@.skip(i as int),
            decreases count - i,
        {
            buf[i] = self.pending[i];
            i = i + 1;
        }
        let ghost before = self.delivered@;
        self.delivered.extend_from_slice(slice_subrange(self.pending.as_slice(), 0, count));
        assert(self.delivered@ =~= before + buf@.take(count as int));
        assert(buf@.skip(count as int) =~= old(buf)@.skip(count as int));
        assert(buf@.take(count as int) =~= old(self).pending@.take(count as int));
        self.pending = self.pending.split_off(count);
        Ok(count)
    }
}

impl ConsoleOutputHandle for MemoryOutput {
    open spec fn output_mode(&self) -> u32 {
        self.mode
    }

    open spec fn written(&self) -> Vec<u8> {
        self.written
    }

    open spec fn synced(&self) -> usize {
        self.synced
    }

    open spec fn buffer_info(&self) -> ScreenBufferInfo {
        self.info
    }

    fn set_output_mode(&mut self, mode: u32) -> (r: Result<(), OsError>)
        ensures
            due(old(self).fault) matches Some(e) ==> r == Err::<(), OsError>(e) && *final(self)
                == *old(self),
            due(old(self).fault) is None ==> r is Ok && *final(self) == (MemoryOutput {
                mode,
                ..old(self).after_call()
            }),
    {
        match tick(&mut self.fault) {
            Ok(()) => {
                self.mode = mode;
                Ok(())
            },
            Err(e) => Err(e),
        }
    }

    fn get_output_mode(&mut self) -> (r: Result<u32, OsError>)
        ensures
            due(old(self).fault) matches Some(e) ==> r == Err::<u32, OsError>(e) && *final(self)
                == *old(self),
            due(old(self).fault) is None ==> r is Ok && *final(self) == old(self).after_call(),
    {
        match tick(&mut self.fault) {
            Ok(()) => Ok(self.mode),
            Err(e) => Err(e),
        }
    }

    /// Accepts the front of `buf`: all of it, unless `accept_at_most` or the
    /// room left in the record of accepted bytes is smaller.
    fn write(&mut self, buf: &[u8]) -> (r: Result<usize, OsError>)
        ensures
            final(self).info == old(self).info,
            final(self).accept_at_most == old(self).accept_at_most,
            due(old(self).fault) matches Some(e) ==> r == Err::<usize, OsError>(e) && *final(self)
                == *old(self),
            due(old(self).fault) is None ==> {
                &&& r matches Ok(count)
                &&& count == vstd::math::min(
                    vstd::math::min(buf@.len() as int, old(self).accept_at_most as int),
                    usize::MAX - old(self).written@.len(),
                )
                &&& final(self).fault == ticked(old(self).fault)
            },
    {
        match tick(&mut self.fault) {
            Ok(()) => {},
            Err(e) => {
                return Err(e);
            },
        }
        let room: usize = usize::MAX - self.written.len();
        let mut count: usize = buf.len();
        if self.accept_at_most < count {
            count = self.accept_at_most;
        }
        if room < count {
            count = room;
        }
        let ghost before = self.written@;
        self.written.extend_from_slice(slice_subrange(buf, 0, count));
        assert(self.written@ =~= before + buf@.take(count as int));
        Ok(count)
    }

    fn flush(&mut self) -> (r: Result<(), OsError>)
        ensures
            due(old(self).fault) matches Some(e) ==> r == Err::<(), OsError>(e) && *final(self)
                == *old(self),
            due(old(self).fault) is None ==> r is Ok && *final(self) == (MemoryOutput {
                synced: old(self).written@.len() as usize,
                ..old(self).after_call()
            }),
    {
        match tick(&mut self.fault) {
            Ok(()) => {
                self.synced = self.written.len();
                Ok(())
            },
            Err(e) => Err(e),
        }
    }

    fn fill_char(&mut self, text: char, x: i16, y: i16, len: u32) -> (r: Result<u32, OsError>)
        ensures
            due(old(self).fault) matches Some(e) ==> r == Err::<u32, OsError>(e) && *final(self)
                == *old(self),
            due(old(self).fault) is None ==> r == Ok::<u32, OsError>(len) && *final(self) == old(
                self,
            ).after_call(),
    {
        match tick(&mut self.fault) {
            Ok(()) => Ok(len),
            Err(e) => Err(e),
        }
    }

    fn fill_attr(&mut self, attr: u16, x: i16, y: i16, len: u32) -> (r: Result<u32, OsError>)
        ensures
            due(old(self).fault) matches Some(e) ==> r == Err::<u32, OsError>(e) && *final(self)
                == *old(self),
            due(old(self).fault) is None ==> r == Ok::<u32, OsError>(len) && *final(self) == old(
                self,
            ).after_call(),
    {
        match tick(&mut self.fault) {
            Ok(()) => Ok(len),
            Err(e) => Err(e),
        }
    }

    fn set_attr(&mut self, attr: u16) -> (r: Result<(), OsError>)
        ensures
            due(old(self).fault) matches Some(e) ==> r == Err::<(), OsError>(e) && *final(self)
                == *old(self),
            due(old(self).fault) is None ==> r is Ok && *final(self) == (MemoryOutput {
                info: ScreenBufferInfo { attributes: attr, ..old(self).info },
                ..old(self).after_call()
            }),
    {
        match tick(&mut self.fault) {
            Ok(()) => {
                self.info.attributes = attr;
                Ok(())
            },
            Err(e) => Err(e),
        }
    }

    fn set_cursor_position(&mut self, x: i16, y: i16) -> (r: Result<(), OsError>)
        ensures
            due(old(self).fault) matches Some(e) ==> r == Err::<(), OsError>(e) && *final(self)
                == *old(self),
            due(old(self).fault) is None ==> r is Ok && *final(self) == (MemoryOutput {
                info: ScreenBufferInfo { cursor_position: Coord { x, y }, ..old(self).info },
                ..old(self).after_call()
            }),
    {
        match tick(&mut self.fault) {
            Ok(()) => {
                self.info.cursor_position = Coord { x, y };
                Ok(())
            },
            Err(e) => Err(e),
        }
    }

    fn get_buffer_info(&mut self) -> (r: Result<ScreenBufferInfo, OsError>)
        ensures
            due(old(self).fault) matches Some(e) ==> r == Err::<ScreenBufferInfo, OsError>(e)
                && *final(self) == *old(self),
            due(old(self).fault) is None ==> r is Ok && *final(self) == old(self).after_call(),
    {
        match tick(&mut self.fault) {
            Ok(()) => Ok(self.info),
            Err(e) => Err(e),
        }
    }

    fn set_viewport(&mut self, left: i16, top: i16, right: i16, bottom: i16) -> (r: Result<
        (),
        OsError,
    >)
        ensures
            due(old(self).fault) matches Some(e) ==> r == Err::<(), OsError>(e) && *final(self)
                == *old(self),
            due(old(self).fault) is None ==> r is Ok && *final(self) == (MemoryOutput {
                info: ScreenBufferInfo {
                    window: SmallRect { left, top, right, bottom },
                    ..old(self).info
                },
                ..old(self).after_call()
            }),
    {
        match tick(&mut self.fault) {
            Ok(()) => {
                self.info.window = SmallRect { left, top, right, bottom };
                Ok(())
            },
            Err(e) => Err(e),
        }
    }

    /// Resizes the buffer and moves the window so that it shows all of it.
    /// An extent with a negative side is refused and changes no geometry.
    fn set_buffer_size(&mut self, size: Coord) -> (r: Result<(), OsError>)
        ensures
            due(old(self).fault) matches Some(e) ==> r == Err::<(), OsError>(e) && *final(self)
                == *old(self),
            due(old(self).fault) is None && (size.x < 0 || size.y < 0) ==> r == Err::<
                (),
                OsError,
            >(OsError { code: ERROR_INVALID_PARAMETER }) && *final(self) == old(self).after_call(),
            due(old(self).fault) is None && size.x >= 0 && size.y >= 0 ==> {
                &&& r is Ok
                &&& final(self).info.window.spans(size)
                &&& final(self).info.window.left == 0
                &&& final(self).info.window.top == 0
                &&& *final(self) == (MemoryOutput {
                    info: ScreenBufferInfo {
                        size,
                        window: final(self).info.window,
                        ..old(self).info
                    },
                    ..old(self).after_call()
                })
            },
    {
        match tick(&mut self.fault) {
            Ok(()) => {},
            Err(e) => {
                return Err(e);
            },
        }
        if size.x < 0 || size.y < 0 {
            return Err(OsError { code: ERROR_INVALID_PARAMETER });
        }
        self.info.size = size;
        self.info.window = SmallRect { left: 0, top: 0, right: size.x - 1, bottom: size.y - 1 };
        Ok(())
    }
}

impl<H: Clone> ConsoleStream for MemoryStream<H> {
    type Handle = H;

    open spec fn tty_backed(&self) -> bool {
        self.tty
    }

    fn is_tty(&self) -> (b: bool) {
        self.tty
    }

    fn duplicate(&self) -> (r: Result<H, OsError>)
        ensures
            self.failure matches Some(e) ==> r == Err::<H, OsError>(e),
            self.failure is None ==> (r matches Ok(handle) && cloned(self.handle, handle)),
    {
        match self.failure {
            Some(e) => Err(e),
            None => Ok(self.handle.clone()),
        }
    }
}

} // verus!
