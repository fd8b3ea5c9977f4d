[package]
name = "filelocks"
version = "0.1.0"
edition = "2021"
publish = false

[dependencies]
libc = "0.2"
windows-sys = { version = "*", features = ["Win32_Foundation", "Win32_Storage_FileSystem", "Win32_System_IO"] }
