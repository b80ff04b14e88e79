[package]
name = "login_flow"
version = "0.1.0"
edition = "2021"
publish = false

[dependencies]
askama = "0.12"
axum = "0.7"
axum-extra = { version = "0.9", features = ["cookie"] }
compact_jwt = "0.4"
serde = { version = "1", features = ["derive"] }
serde_json = "1"
uuid = "1"
webauthn-rs = "0.5"
