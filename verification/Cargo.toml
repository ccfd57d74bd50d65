[package]
name = "codex_core"
version = "0.1.0"
edition = "2021"
publish = false

[dependencies]
uuid = { version = "=1.29.0", features = ["v7"] }
chrono = { version = "=0.4.45", default-features = false, features = ["std"] }
serde = { version = "=1.0.229", features = ["derive"] }
serde_json = "=1.0.154"
url = "=2.5.8"
clap = { version = "=4.6.7", features = ["derive"] }
base64 = "=0.22.1"
time = { version = "=0.3.55", features = ["parsing", "formatting"] }
toml_edit = "*"
