[package]
name = "dwm_lut"
version = "0.1.0"
edition = "2021"
publish = false

[dependencies]
serde = { version = "1", features = ["derive"] }
serde_json = "1"
parking_lot = "*"
windows-sys = { version = "*", features = ["Win32_Foundation", "Win32_System_Memory", "Win32_System_LibraryLoader"] }
