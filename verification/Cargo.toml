[package]
name = "trustscan"
version = "0.1.0"
edition = "2021"
publish = false

[dependencies]
chrono = "=0.4.45"
colored = "=2.2.0"
walkdir = "=2.5.0"
windows-sys = { version = "=0.52.0", features = ["Win32_Foundation", "Win32_Security_Cryptography", "Win32_Security_WinTrust"] }
