[package]
name = "async_native_timer"
version = "0.1.0"
edition = "2021"
publish = false

[dependencies]
libc = "0.2"
mio = "0.6"
romio = "0.3.0-alpha.9"
