[package]
name = "homebank_convert"
version = "0.1.0"
edition = "2021"
publish = false

[dependencies]
calamine = "0.22"
chrono = { version = "0.4", default-features = false, features = ["std"] }
clap = { version = "4", features = ["derive"] }
csv = "1"
rust_decimal = { version = "1", default-features = false, features = ["std"] }
