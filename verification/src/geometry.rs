//! Screen geometry: what the console reports about its buffer and window, and
//! the size that callers see.
//!
//! Consoles treat the last column specially: text written there does not
//! leave the cursor in a pending-wrap state as it does on Unix terminals. The
//! backend therefore reports one column fewer than the window shows, and adds
//! the column back when it is asked to resize.

use vstd::prelude::*;
use crate::error::{ConsoleError, GeometryFault, OsError};

verus! {

/// The size of the terminal as callers see it. Pixel sizes are zero when unknown.
#[derive(Clone, Copy, Debug, PartialEq, Eq, Structural)]
pub struct ScreenSize {
    pub rows: usize,
    pub cols: usize,
    pub xpixel: usize,
    pub ypixel: usize,
}

/// A cell position or an extent in cells, as the console counts them.
#[derive(Clone, Copy, Debug, PartialEq, Eq, Structural)]
pub struct Coord {
    pub x: i16,
    pub y: i16,
}

/// A rectangle of cells; all four edges are inclusive.
#[derive(Clone, Copy, Debug, PartialEq, Eq, Structural)]
pub struct SmallRect {
    pub left: i16,
    pub top: i16,
    pub right: i16,
    pub bottom: i16,
}

/// What the console reports about a screen buffer.
#[derive(Clone, Copy, Debug, PartialEq, Eq, Structural)]
pub struct ScreenBufferInfo {
    /// Extent of the backing buffer, scrollback included.
    pub size: Coord,
    pub cursor_position: Coord,
    pub attributes: u16,
    /// The part of the buffer that the window shows.
    pub window: SmallRect,
    pub maximum_window_size: Coord,
}

impl SmallRect {
    /// Number of columns the rectangle covers, both edges counted.
    pub open spec fn width(self) -> int {
        self.right - self.left + 1
    }

    /// Number of rows the rectangle covers, both edges counted.
    pub open spec fn height(self) -> int {
        self.bottom - self.top + 1
    }

    /// The rectangle covers exactly `extent` cells in each direction.
    pub open spec fn spans(self, extent: Coord) -> bool {
        self.width() == extent.x && self.height() == extent.y
    }
}

/// The size reported for a visible window: all of its rows, and all of its
/// columns but one. `None` when a dimension would be negative.
pub open spec fn spec_visible_size(window: SmallRect) -> Option<ScreenSize> {
    if window.width() - 1 >= 0 && window.height() >= 0 {
        Some(
            ScreenSize {
                rows: window.height() as usize,
                cols: (window.width() - 1) as usize,
                xpixel: 0,
                ypixel: 0,
            },
        )
    } else {
        None
    }
}

/// The buffer extent requested for a size: its rows, and its columns plus the
/// one that reports leave out. `None` when either does not fit the console's
/// 16-bit coordinates.
pub open spec fn spec_buffer_extent(size: ScreenSize) -> Option<Coord> {
    if size.cols + 1 <= i16::MAX && size.rows <= i16::MAX {
        Some(Coord { x: (size.cols + 1) as i16, y: size.rows as i16 })
    } else {
        None
    }
}

/// What a size query reports, given how the console answered it: a refusal
/// is passed on with its code, and a window is measured.
pub open spec fn spec_reported_size(answer: Result<ScreenBufferInfo, OsError>) -> Result<
    ScreenSize,
    ConsoleError,
> {
    match answer {
        Err(code) => Err(ConsoleError::Geometry(GeometryFault::Os(code))),
        Ok(info) => match spec_visible_size(info.window) {
            Some(size) => Ok(size),
            None => Err(ConsoleError::Geometry(GeometryFault::OutOfRange)),
        },
    }
}

/// Turns the console's answer to a geometry query into the size to report.
pub fn reported_size(answer: Result<ScreenBufferInfo, OsError>) -> (r: Result<
    ScreenSize,
    ConsoleError,
>)
    ensures
        r == spec_reported_size(answer),
{
    match answer {
        Err(code) => Err(ConsoleError::Geometry(GeometryFault::Os(code))),
        Ok(info) => match visible_size(info.window) {
            Ok(size) => Ok(size),
            Err(fault) => Err(ConsoleError::Geometry(fault)),
        },
    }
}

/// Computes the size to report for the window that the console shows.
pub fn visible_size(window: SmallRect) -> (r: Result<ScreenSize, GeometryFault>)
    ensures
        spec_visible_size(window) matches Some(size) ==> r == Ok::<ScreenSize, GeometryFault>(
            size,
        ),
        spec_visible_size(window) is None ==> r == Err::<ScreenSize, GeometryFault>(
            GeometryFault::OutOfRange,
        ),
{
    let width: i32 = window.right as i32 - window.left as i32;
    let height: i32 = 1 + (window.bottom as i32 - window.top as i32);
    if width < 0 || height < 0 {
        return Err(GeometryFault::OutOfRange);
    }
    Ok(ScreenSize { rows: height as usize, cols: width as usize, xpixel: 0, ypixel: 0 })
}

/// Computes the buffer extent to request from the console for `size`.
pub fn buffer_extent(size: ScreenSize) -> (r: Result<Coord, GeometryFault>)
    ensures
        spec_buffer_extent(size) matches Some(extent) ==> r == Ok::<Coord, GeometryFault>(extent),
        spec_buffer_extent(size) is None ==> r == Err::<Coord, GeometryFault>(
            GeometryFault::OutOfRange,
        ),
{
    if size.cols >= 0x7fff || size.rows > 0x7fff {
        return Err(GeometryFault::OutOfRange);
    }
    Ok(Coord { x: (size.cols + 1) as i16, y: size.rows as i16 })
}

/// Setting a size and reading it back gives the rows and columns that were
/// set, provided the window shows the whole of the buffer that was requested:
/// the column added on the way in is the column left out on the way back.
pub proof fn lemma_size_round_trip(size: ScreenSize, window: SmallRect)
    requires
        spec_buffer_extent(size) matches Some(extent) && window.spans(extent),
    ensures
        spec_visible_size(window) == Some(
            ScreenSize { rows: size.rows, cols: size.cols, xpixel: 0, ypixel: 0 },
        ),
{
}

/// Whatever size is reported for a window, asking for that size requests a
/// buffer of exactly the window's extent.
pub proof fn lemma_reported_size_requests_window(window: SmallRect)
    requires
        spec_visible_size(window) is Some,
        window.width() <= i16::MAX,
        window.height() <= i16::MAX,
    ensures
        spec_buffer_extent(spec_visible_size(window)->Some_0) matches Some(extent) && window.spans(
            extent,
        ),
{
}

} // verus!
