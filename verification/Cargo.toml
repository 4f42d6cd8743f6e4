[package]
name = "matched_filter"
version = "0.1.0"
edition = "2021"
publish = false

[dependencies]
clap = "*"
tokio = { version = "*", features = ["full"] }
serde = { version = "*", features = ["derive"] }
serde_json = "*"
toml = "*"
rmp-serde = "*"
regex = "*"
num = "*"
ctrlc = "*"
