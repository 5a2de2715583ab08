[package]
name = "bb_pil_backend"
version = "0.1.0"
edition = "2021"
publish = false

[dependencies]
handlebars = { version = "=6.4.4", features = ["script_helper"] }
serde_json = "=1.0.151"
