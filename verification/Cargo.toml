[package]
name = "sjl"
version = "0.1.0"
edition = "2021"
publish = false

[dependencies]
chrono = { version = "0.4", default-features = false, features = ["clock", "std"] }
crossbeam-channel = "0.5"
is-terminal = "0.4"
libc = "0.2"
owo-colors = "4"
serde = { version = "1", features = ["derive"] }
serde_json = "1"
