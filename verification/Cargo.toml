[package]
name = "zenoh_net"
version = "0.1.0"
edition = "2021"
publish = false

[dependencies]
flume = "0.11"
lz4_flex = "0.11"
nonempty-collections = { version = "*", features = ["serde"] }
parking_lot = "0.12"
serde = { version = "1", features = ["derive"] }
serde_json = "1"
