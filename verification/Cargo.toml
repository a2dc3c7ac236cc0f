[package]
name = "tokio_libssh2"
version = "0.1.0"
edition = "2021"
publish = false

[dependencies]
libssh2-sys = "*"
libc = "*"
tokio = { version = "*", features = ["net", "rt", "io-util"] }
