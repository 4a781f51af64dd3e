[package]
name = "pxe_cloud_init"
version = "0.1.0"
edition = "2021"
publish = false

[dependencies]
axum = "0.8"
axum-template = { version = "3", features = ["tera"] }
base64 = "0.22"
tera = { version = "1", default-features = false }
tokio = { version = "1", features = ["fs"] }
toml = { version = "0.9", features = ["preserve_order"] }
