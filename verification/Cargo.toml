[package]
name = "dijavu"
version = "0.1.0"
edition = "2021"
publish = false

[dependencies]
rustc-hash = "2"
futures = "0.3"
ctor = "0.2"
syn = { version = "2", features = ["full", "extra-traits"] }
quote = "1"
proc-macro2 = "1"
darling = "0.20"

[dev-dependencies]
