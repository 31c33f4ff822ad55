[package]
name = "slim_channel"
version = "0.1.0"
edition = "2021"
publish = false

[dependencies]
async-trait = "0.1"
bincode = { version = "2", default-features = false, features = ["std"] }
parking_lot = "0.12"
rand = "0.9"
thiserror = "2"
tracing = "0.1"
