[package]
name = "android_xdl"
version = "0.1.0"
edition = "2021"
publish = false

[dependencies]
libc = "0.2"
log = "0.4"
proc-macro2 = "1"
quote = "1"
syn = { version = "2", features = ["full"] }
