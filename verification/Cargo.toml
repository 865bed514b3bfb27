[package]
name = "a121-rs"
version = "0.1.0"
edition = "2021"
publish = false

[dependencies]
a121-sys = { version = "=0.7.0", features = ["distance", "presence"] }
embassy-sync = "=0.8.0"
embedded-hal = "=1.0.0"
embedded-hal-async = "=1.0.0"
libm = "=0.2.16"
num = { version = "=0.4.3", default-features = false }
