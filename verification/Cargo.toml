[package]
name = "repeatrs"
version = "0.1.0"
edition = "2021"
publish = false

[dependencies]
uuid = { version = "1", features = ["v4"] }
chrono = "0.4"
croner = "*"
async-nats = "*"
serde = { version = "1", features = ["derive"] }
serde_json = "1"
toml = "*"
config = { version = "*", default-features = false, features = ["toml"] }
clap = { version = "4", features = ["derive", "env"] }
thiserror = "*"
tabled = "*"
