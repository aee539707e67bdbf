[package]
name = "console_backend"
version = "0.1.0"
edition = "2021"
publish = false

[dependencies]
anyhow = "1"
log = "0.4"
raw-window-handle = "0.3"
winapi = { version = "=0.3.9", features = ["consoleapi", "errhandlingapi", "fileapi", "handleapi", "processthreadsapi", "wincon", "wincontypes", "winnt"] }
