[package]
name = "opendp_ffi"
version = "0.1.0"
edition = "2021"
publish = false

[dependencies]
backtrace = "0.3"
num = "=0.4.3"
opendp = { version = "=0.2.4", default-features = false, features = ["untrusted"] }
