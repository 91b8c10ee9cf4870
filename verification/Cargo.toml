[package]
name = "ansi_style"
version = "0.1.0"
edition = "2021"
publish = false

[dependencies]
winapi = { version = "0.3", features = ["consoleapi", "errhandlingapi", "fileapi", "handleapi", "wincon", "winnt"] }
