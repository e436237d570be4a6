[package]
name = "audit_trail"
version = "0.1.0"
edition = "2021"
publish = false

[dependencies]
sha2 = "*"
uuid = { version = "*", features = ["v4"] }
candid = "*"
ic-cdk = "*"
ic-cdk-macros = "*"
serde = { version = "*", features = ["derive"] }
