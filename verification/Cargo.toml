[package]
name = "pipeman"
version = "0.1.0"
edition = "2021"
publish = false

[dependencies]
chrono = "*"
clap = { version = "*", features = ["derive"] }
config = { version = "*", default-features = false, features = ["toml"] }
futures = "*"
reqwest = { version = "*", default-features = false, features = ["json"] }
rust-ini = "*"
serde = { version = "*", features = ["derive"] }
serde_json = "*"
ssh2 = "*"
tokio = { version = "*", features = ["rt-multi-thread", "macros", "time"] }
