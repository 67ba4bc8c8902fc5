[package]
name = "cronback"
version = "0.1.0"
edition = "2021"
publish = false

[dependencies]
sha2 = "=0.10.9"
base64 = "=0.21.7"
regex = "=1.13.1"
uuid = { version = "=1.29.0", features = ["v4"] }
ulid = "=1.2.1"
chrono = "=0.4.45"
chrono-tz = "=0.8.6"
cron = "=0.13.0"
dashmap = "=5.5.3"
serde = { version = "=1.0.229", features = ["derive"] }
config = { version = "=0.13.4", default-features = false, features = ["toml"] }
names = { version = "=0.14.0", default-features = false }
http = "=0.2.12"
reqwest = { version = "0.11", default-features = false }

[dev-dependencies]
proc-macro2 = "=1.0.107"
