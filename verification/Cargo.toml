[package]
name = "ui_state"
version = "0.1.0"
edition = "2021"
publish = false

[dependencies]
leptos = { version = "*", features = ["csr"] }
reactive_stores = "*"
serde = { version = "1", features = ["derive"] }
serde_json = "1"
