//! Failure taxonomy of the console backend.
//!
//! Every fallible operation returns one of these values; nothing is signalled
//! out of band, and operating-system error codes are carried verbatim.

use vstd::prelude::*;

verus! {

/// Which of the two console endpoints an operation was addressing.
#[derive(Clone, Copy, Debug, PartialEq, Eq, Structural)]
pub enum Side {
    Input,
    Output,
}

/// A failure reported by the operating system, with its error code unchanged.
#[derive(Clone, Copy, Debug, PartialEq, Eq, Structural)]
pub struct OsError {
    pub code: i32,
}

/// Why a geometry query or resize did not go through.
#[derive(Clone, Copy, Debug, PartialEq, Eq, Structural)]
pub enum GeometryFault {
    /// The console refused the query or the resize.
    Os(OsError),
    /// A dimension does not fit the integer type on the other side.
    OutOfRange,
}

/// Everything that can go wrong in the console backend.
#[derive(Clone, Copy, Debug, PartialEq, Eq, Structural)]
pub enum ConsoleError {
    /// One of the streams handed to the constructor is not an interactive terminal.
    NotATty,
    /// The stream on the given side could not be duplicated into an owned handle.
    Acquisition(Side, OsError),
    /// Reading or changing the console mode on the given side failed.
    Mode(Side, OsError),
    /// A read, write or flush on the given side failed.
    Io(Side, OsError),
    /// The output handle took only a front part of what a flush offered it.
    /// Nothing is lost: the rest still waits in the buffer, and the next
    /// flush offers it again.
    ShortWrite,
    /// A geometry query or resize failed.
    Geometry(GeometryFault),
}

impl ConsoleError {
    /// `r` is what the terminal reports for a mode call on `side` that ended
    /// as `done`: success for success, and a failure with the same code.
    pub open spec fn reports_mode_call(
        r: Result<(), ConsoleError>,
        side: Side,
        done: Result<(), OsError>,
    ) -> bool {
        match done {
            Ok(_) => r is Ok,
            Err(code) => r == Err::<(), ConsoleError>(ConsoleError::Mode(side, code)),
        }
    }

    /// `r` is what the terminal reports for a flush of the handle on `side`
    /// that ended as `done`.
    pub open spec fn reports_io_call(
        r: Result<(), ConsoleError>,
        side: Side,
        done: Result<(), OsError>,
    ) -> bool {
        match done {
            Ok(_) => r is Ok,
            Err(code) => r == Err::<(), ConsoleError>(ConsoleError::Io(side, code)),
        }
    }

    /// `r` is what the terminal reports for a resize that ended as `done`.
    pub open spec fn reports_resize(r: Result<(), ConsoleError>, done: Result<(), OsError>) -> bool {
        match done {
            Ok(_) => r is Ok,
            Err(code) => r == Err::<(), ConsoleError>(
                ConsoleError::Geometry(GeometryFault::Os(code)),
            ),
        }
    }

    /// What the terminal reports for a read or write on `side` that ended as
    /// `done`: the same count, or a failure with the same code.
    pub open spec fn of_transfer(side: Side, done: Result<usize, OsError>) -> Result<
        usize,
        ConsoleError,
    > {
        match done {
            Ok(count) => Ok(count),
            Err(code) => Err(ConsoleError::Io(side, code)),
        }
    }
}

impl OsError {
    /// Outcome of a console call that reports failure by returning zero.
    /// `code` is the error code the system holds for the calling thread.
    pub fn check(status: i32, code: i32) -> (r: Result<(), OsError>)
        ensures
            status != 0 ==> r == Ok::<(), OsError>(()),
            status == 0 ==> r == Err::<(), OsError>(OsError { code }),
    {
        if status != 0 {
            Ok(())
        } else {
            Err(OsError { code })
        }
    }
}

} // verus!
