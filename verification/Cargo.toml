[package]
name = "secret_memory"
version = "0.1.0"
edition = "2021"
publish = false

[dependencies]
libc = "0.2"
zeroize = "1"
windows-sys = { version = "*", features = ["Win32_Foundation", "Win32_System_Memory", "Win32_System_SystemInformation"] }
