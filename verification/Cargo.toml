[package]
name = "hermes"
version = "0.1.0"
edition = "2021"
publish = false

[dependencies]
agent-client-protocol = { version = "=0.9.5", features = ["unstable"] }
async-trait = "=0.1.92"
nvim-oxi = { version = "=0.6.0", features = ["neovim-0-11"] }
serde = { version = "=1.0.229", features = ["derive"] }
serde_json = "=1.0.154"
thiserror = "=2.0.21"
tokio = { version = "=1.54.1", features = ["rt", "process", "sync", "macros", "io-util"] }
tokio-util = { version = "=0.7.20", features = ["compat"] }
