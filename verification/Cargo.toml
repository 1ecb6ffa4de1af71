[package]
name = "hexstody"
version = "0.1.0"
edition = "2021"
publish = false

[dependencies]
bitcoin = "0.28"
bitcoincore-rpc = "0.15"
bitcoincore-rpc-json = "0.15"
p256 = { version = "0.10", features = ["ecdsa", "serde", "pem"] }
uuid = { version = "1", features = ["v4", "serde"] }
serde = { version = "1", features = ["derive"] }
serde_json = "1"
rocket = { version = "0.5.0-rc.2", features = ["json"] }
rocket_okapi = { version = "0.8.0-rc.2", features = ["swagger", "rapidoc"] }
rocket_dyn_templates = { version = "0.1.0-rc.2", features = ["handlebars"] }
figment = { version = "0.10", features = ["env"] }
tokio = { version = "1", features = ["full"] }
log = "0.4"
