[package]
name = "minidump_handler"
version = "0.1.0"
edition = "2021"
publish = false

[dependencies]
anyhow = "1"
clap = { version = "4", features = ["derive"] }
colored = "2"
libc = "0.2"
minidump-writer = "*"
once_cell = "1"
