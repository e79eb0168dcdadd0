[package]
name = "portscan"
version = "0.1.0"
edition = "2021"
publish = false

[dependencies]
colored = "2"
threadpool = "1"
winapi = { version = "0.3", features = ["wincon", "winnt"] }
