[package]
name = "toddler_copilot_extension"
version = "0.1.0"
edition = "2021"
publish = false

[dependencies]
anyhow = "1"
axum = "*"
axum-extra = { version = "*", features = ["cookie-private"] }
base64 = "0.22"
colored = "*"
ecdsa = { version = "0.16", features = ["der"] }
envy = "*"
oauth2 = { version = "4", default-features = false, features = ["reqwest", "rustls-tls"] }
p256 = { version = "0.13", features = ["ecdsa", "pem"] }
reqwest = { version = "*", default-features = false, features = ["json", "rustls-tls"] }
serde = { version = "*", features = ["derive"] }
serde_json = "*"
serde_path_to_error = "*"
signature = "2"
time = "*"
tokio = { version = "1", features = ["rt-multi-thread", "macros", "net"] }
tracing = "*"
tracing-subscriber = { version = "*", features = ["env-filter"] }
