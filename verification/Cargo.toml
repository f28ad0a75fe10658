[package]
name = "octopos-bootstrapper"
version = "0.1.0"
edition = "2021"
publish = false

[dependencies]
base64 = "0.22"
flate2 = "1"
getrandom = "0.2"
log = "0.4"
serde = { version = "1", features = ["derive"] }
serde_json = "1"
tauri = { version = "2", default-features = false }
ureq = "2"
uuid = { version = "1", features = ["v4"] }
