[package]
name = "hammond-data"
version = "0.1.0"
edition = "2021"
publish = false

[dependencies]
anyhow = "1"
chrono = "0.4"
diesel = { version = "2", features = ["sqlite", "r2d2"] }
humansize = "1"
log = "0.4"
reqwest = { version = "0.12", features = ["blocking"] }
rfc822_sanitizer = "0.3"
rss = { version = "2", default-features = false }
tempdir = "0.3"
tokio = { version = "1", features = ["fs", "io-util", "rt-multi-thread", "sync", "time"] }
url = "2"
