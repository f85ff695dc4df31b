[package]
name = "sidekick"
version = "0.1.0"
edition = "2021"
publish = false

[dependencies]
anyhow = "=1.0.104"
blake3 = "=1.8.7"
clap = { version = "=4.6.7", features = ["derive"] }
glob = "=0.3.4"
neovim-lib = "=0.6.1"
# held at a version that neovim-lib builds with; nothing else names it
rmp = "=0.8.11"
serde = { version = "=1.0.229", features = ["derive"] }
serde_json = "=1.0.154"
