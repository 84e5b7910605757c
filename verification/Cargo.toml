[package]
name = "rmips"
version = "0.1.0"
edition = "2021"
publish = false

[dependencies]
clap = { version = "4", features = ["derive"] }
gdbstub = "0.5"
gdbstub_arch = "0.1"
log = "0.4"
simplelog = "0.12"
human-panic = "1"
