[package]
name = "discrimin_ant_proc"
version = "0.1.0"
edition = "2021"
publish = false

[dependencies]
num-traits = "0.2"
proc-macro2 = "1"
quote = "1"
syn = { version = "2", features = ["full"] }
