[package]
name = "fromsoftware"
version = "0.1.0"
edition = "2021"
publish = false

[dependencies]
pelite = "*"
vtable-rs = "*"
hudhook = "*"
windows = { version = "*", features = ["Win32_Foundation", "Win32_System_LibraryLoader"] }
