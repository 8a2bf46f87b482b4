[package]
name = "allscreenshots_cli"
version = "0.1.0"
edition = "2021"
publish = false

[dependencies]
allscreenshots-sdk = "*"
arboard = "*"
chrono = "*"
clap = { version = "*", features = ["derive", "env"] }
clap_complete = "*"
colored = "*"
directories = "*"
humantime = "*"
image = "*"
indicatif = "*"
serde = { version = "*", features = ["derive"] }
serde_json = "*"
thiserror = "*"
tokio = { version = "*", features = ["rt-multi-thread", "macros", "time"] }
toml = "*"
url = "*"
viuer = "*"
