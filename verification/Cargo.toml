[package]
name = "trustify"
version = "0.1.0"
edition = "2021"
publish = false

[dependencies]
sha2 = "=0.10.9"
serde = { version = "=1.0.229", features = ["derive"] }
serde_json = "=1.0.154"
csaf = { version = "=0.5.1", default-features = false }
cvss = "=2.2.0"
actix-web = { version = "=4.18.1", default-features = false, features = ["macros"] }
utoipa = "=4.2.3"
futures-util = "=0.3.34"
