[package]
name = "test_kits"
version = "0.1.0"
edition = "2021"
publish = false

[dependencies]
async-trait = "0.1"
futures = "0.3"
jsonb = "0.3"
log = "0.4"
parking_lot = "0.12"
tokio = { version = "1", features = ["sync"] }
uuid = { version = "1", features = ["v4"] }
