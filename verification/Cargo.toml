[package]
name = "oauth_token_service"
version = "0.1.0"
edition = "2021"
publish = false

[dependencies]
base64 = "*"
oauth2 = { version = "*", features = ["reqwest"] }
thiserror = "*"
tokio = { version = "*", features = ["sync"] }
