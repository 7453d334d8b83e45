[package]
name = "auth_core"
version = "0.1.0"
edition = "2021"
publish = false

[dependencies]
argon2 = { version = "=0.5.3", features = ["std"] }
jwt-simple = { version = "=0.15.0", default-features = false, features = ["pure-rust"] }
serde = { version = "=1.0.229", features = ["derive"] }
serde_json = "=1.0.151"
diesel = { version = "=2.3.13", default-features = false }
uuid = "=1.27.0"
once_cell = "=1.21.4"
