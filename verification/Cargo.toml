[package]
name = "winspawn"
version = "0.1.0"
edition = "2021"
publish = false

[dependencies]
log = "=0.4.34"
windows = { version = "=0.52.0", features = ["Win32_Foundation", "Win32_Security", "Win32_System_Threading"] }
