[package]
name = "spotify_status"
version = "0.1.0"
edition = "2021"
publish = false

[dependencies]
regex = "=1.13.1"
html-escape = "=0.2.15"
serde = { version = "=1.0.229", features = ["derive"] }
toml = "=0.8.23"
home = "=0.5.12"
dbus = { version = "=0.9.12", features = ["vendored"] }
