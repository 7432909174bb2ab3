[package]
name = "aya"
version = "0.1.0"
edition = "2021"
publish = false

[dependencies]
async-io = "2"
libc = "0.2"
proc-macro2 = "1"
quote = "1"
syn = { version = "2", features = ["full"] }
thiserror = "1"
tokio = { version = "1", features = ["net", "rt"] }
