[package]
name = "sql_gateway"
version = "0.1.0"
edition = "2021"

[dependencies]
once_cell = "=1.21.4"
serde = { version = "=1.0.229", features = ["derive"] }
serde_json = "=1.0.151"
sqlparser = "=0.63.0"
wasm-bindgen = "=0.2.129"
worker = { version = "=0.8.7", features = ["d1"] }
