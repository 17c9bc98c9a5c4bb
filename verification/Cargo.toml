[package]
name = "raur"
version = "0.1.0"
edition = "2021"
publish = false

[dependencies]
chrono = { version = "=0.4.45", default-features = false }
hyper = "=0.10.16"
log = "=0.4.34"
rustc-serialize = "=0.3.25"
url = "=2.5.8"
