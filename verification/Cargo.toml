[package]
name = "builder_id_auth"
version = "0.1.0"
edition = "2021"
publish = false

[dependencies]
aws-sdk-ssooidc = { version = "*", default-features = false }
base64 = "*"
rand = "0.8"
serde = { version = "1", features = ["derive"] }
serde_json = "1"
sha2 = "0.10"
thiserror = "*"
time = "0.3"
tokio = { version = "1", default-features = false, features = ["time"] }
