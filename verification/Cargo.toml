[package]
name = "ort"
version = "0.1.0"
edition = "2021"
publish = false

[dependencies]
smallvec = "1"
ort-sys = { version = "2.0.0-rc.10", default-features = false, features = ["disable-linking"] }
