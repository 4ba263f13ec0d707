[package]
name = "projbotv3"
version = "0.1.0"
edition = "2021"
publish = false

[dependencies]
form-data-builder = "1"
rustls = "0.20"
webpki-roots = "0.22"
gifski = "1"
tokio = { version = "1", features = ["rt-multi-thread", "macros", "time", "sync"] }
serenity = "0.11"
songbird = "0.3"
