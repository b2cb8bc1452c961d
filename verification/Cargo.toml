[package]
name = "auth_errors"
version = "0.1.0"
edition = "2021"
publish = false

[dependencies]
serde_json = "1"
thiserror = "1"
warp = { version = "0.3", default-features = false }
