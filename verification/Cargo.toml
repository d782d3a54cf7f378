[package]
name = "auth_core"
version = "0.1.0"
edition = "2021"
publish = false

[dependencies]
aes-gcm = "=0.10.3"
anyhow = "=1.0.104"
async-trait = "=0.1.92"
base64 = "=0.22.1"
chrono = "=0.4.45"
hkdf = "=0.12.4"
jsonwebtoken = "=9.3.1"
rand = "=0.10.3"
reqwest = { version = "=0.12.28", default-features = false, features = ["json", "rustls-tls"] }
serde = { version = "=1.0.229", features = ["derive"] }
serde_json = { version = "=1.0.154", features = ["preserve_order"] }
sha2 = "=0.10.9"
thiserror = "=2.0.21"
tokio = { version = "=1.54.1", features = ["rt-multi-thread"] }
url = "=2.5.8"
urlencoding = "=2.1.3"
