[package]
name = "mpv_stt_transport"
version = "0.1.0"
edition = "2021"
publish = false

[dependencies]
hex = "0.4"
hound = "3.5"
anyhow = "1"
axum = "*"
bytes = "1"
libc = "0.2"
log = "0.4"
opus-static-sys = "*"
opusic-sys = "*"
postcard = { version = "1", default-features = false, features = ["alloc"] }
reqwest = { version = "*", default-features = false, features = ["blocking"] }
serde = { version = "1", features = ["derive"] }
tempfile = "3"
thiserror = "*"
tokio = { version = "1", features = ["rt-multi-thread", "sync", "net", "time", "macros"] }
tokio-stream = "*"
