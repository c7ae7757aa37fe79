[package]
name = "rustiful"
version = "0.1.0"
edition = "2021"
publish = false

[dependencies]
url = "2"
uuid = "1"
serde = { version = "1", features = ["derive"] }
serde_json = "1"
iron = "0.6"
router = "0.6"
bodyparser = "0.8"
persistent = "0.4"
hyper = "0.10"
