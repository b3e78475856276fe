[package]
name = "org2lichess"
version = "0.1.0"
edition = "2021"
publish = false

[dependencies]
base64 = "0.22"
bb8 = "0.8"
bb8-postgres = "0.8"
chrono = "0.4"
chrono-tz = "0.10"
postgres = "0.19"
rand = "0.9"
reqwest = { version = "0.12", default-features = false, features = ["blocking", "json", "rustls-tls"] }
rocket = { version = "0.5", features = ["secrets", "json"] }
rocket_dyn_templates = { version = "0.2", features = ["tera"] }
serde = { version = "1", features = ["derive"] }
serde_json = "1"
sha2 = "0.10"
toml = "0.8"
urlencoding = "2"
