[package]
name = "nix_shell_locked"
version = "0.1.0"
edition = "2021"
publish = false

[dependencies]
anyhow = "1"
env_logger = "*"
exec = "0.3"
log = "0.4"
meap = "*"
serde = { version = "1", features = ["derive"] }
serde_json = "1"
shellexpand = "*"
toml = "*"
xdg = "*"
