[package]
name = "diy_typeless_core"
version = "0.1.0"
edition = "2021"
publish = false

[dependencies]
anyhow = "*"
biquad = "*"
chrono = "*"
clap = { version = "*", features = ["derive"] }
cpal = "*"
dirs = "*"
dotenvy = "*"
flacenc = "*"
hound = "*"
libc = "*"
log = "*"
reqwest = { version = "*", default-features = false, features = ["blocking", "json", "multipart", "rustls-tls"] }
secrecy = "*"
serde = { version = "*", features = ["derive"] }
serde_json = "*"
thiserror = "*"
