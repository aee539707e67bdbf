//! A console-device terminal backend: owned input and output handles, console
//! mode control, buffered output and screen geometry, behind one object that
//! restores the console to the mode it found.

pub mod buffer;
pub mod device;
pub mod error;
pub mod geometry;
pub mod memory;
pub mod mode;
pub mod terminal;
pub mod window;

pub use buffer::WriteBuffer;
pub use device::{ConsoleInputHandle, ConsoleOutputHandle, ConsoleRenderer, ConsoleStream};
pub use error::{ConsoleError, GeometryFault, OsError, Side};
pub use memory::{Fault, MemoryInput, MemoryOutput, MemoryStream};
pub use geometry::{Coord, ScreenBufferInfo, ScreenSize, SmallRect};
pub use terminal::{WindowsTerminal, BUF_SIZE};
pub use window::{Connection, Window};
