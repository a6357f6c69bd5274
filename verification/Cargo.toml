[package]
name = "four_cc"
version = "0.4.0"
edition = "2021"
publish = false

[dependencies]
serde = { version = "1", default-features = false }
schemars = { version = "0.8", default-features = false }
zerocopy = { version = "0.7", default-features = false, features = ["derive"] }
