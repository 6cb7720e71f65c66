[package]
name = "sriracha_mayo"
version = "0.1.0"
edition = "2021"
publish = false

[dependencies]
bytes = { version = "=1.12.1", features = ["serde"] }
rand_core = { version = "=0.6.4", features = ["getrandom"] }
serde = { version = "=1.0.229", features = ["derive"] }
thiserror = "=1.0.69"
zeroize = "=1.9.1"

[dev-dependencies]
rand_chacha = "=0.3.1"
