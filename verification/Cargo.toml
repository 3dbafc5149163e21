[package]
name = "loothound"
version = "0.1.0"
edition = "2021"
publish = false

[dependencies]
chrono = { version = "0.4", default-features = false, features = ["clock", "std"] }
oauth2 = { version = "4", default-features = false, features = ["reqwest", "rustls-tls"] }
open = "5"
reqwest = { version = "0.11", default-features = false, features = ["json", "rustls-tls"] }
serde = { version = "1", features = ["derive"] }
serde_json = "1"
sqlx = { version = "0.7", default-features = false, features = ["sqlite", "runtime-tokio", "chrono", "json", "migrate", "macros"] }
thiserror = "1"
tokio = { version = "1", features = ["sync"] }
ts-rs = { version = "7", default-features = false }
url = "2"
