[package]
name = "systemctl_bot"
version = "0.1.0"
edition = "2021"
publish = false

[dependencies]
anyhow = "*"
async-trait = "*"
clap = { version = "*", features = ["derive"] }
config = { version = "*", default-features = false, features = ["toml"] }
futures = "*"
serde = { version = "*", features = ["derive"] }
tokio = { version = "*", features = ["macros", "process", "rt-multi-thread", "sync"] }
zbus = "*"
