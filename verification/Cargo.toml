[package]
name = "scf_next"
version = "0.1.0"
edition = "2021"
publish = false

[dependencies]
base64 = "0.22"
toml_edit = "0.22"
toml = "0.8"
serde = { version = "1", features = ["derive"] }
evdev = "0.13"
notify = "8"
rdev = "0.5"
tauri = { version = "2", default-features = false }
