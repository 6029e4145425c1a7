[package]
name = "zenoh_ffi"
version = "0.1.0"
edition = "2021"
publish = false

[dependencies]
zenoh = "*"
tokio = { version = "*", default-features = false, features = ["rt-multi-thread"] }
once_cell = "*"
