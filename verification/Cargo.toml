[package]
name = "mio_signals"
version = "0.1.0"
edition = "2021"
publish = false

[dependencies]
libc = "0.2"
log = "0.4"
mio = { version = "1", features = ["os-ext", "os-poll"] }
