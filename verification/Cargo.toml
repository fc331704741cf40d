[package]
name = "pg_connector"
version = "1.0.1"
edition = "2021"
publish = false

[dependencies]
bb8 = "0.9"
bb8-postgres = "0.9"
tokio = { version = "1", features = ["time"] }
