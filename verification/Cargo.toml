[package]
name = "bevy_lint"
version = "0.1.0"
edition = "2021"
publish = false

[dependencies]
cargo_metadata = "*"
serde = { version = "1", features = ["derive"] }
serde_json = "1"
toml = "*"
anyhow = "1"
pico-args = "0.5"
anstream = "*"
anstyle = "1"
