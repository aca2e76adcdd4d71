[package]
name = "nowplaying_ingest"
version = "0.1.0"
edition = "2021"
publish = false

[dependencies]
serde_json = "=1.0.151"
quick-xml = "=0.42.0"
serde-xml-rs = "=0.6.0"
sha2 = "=0.10.9"
hex = "=0.4.3"
url = "=2.5.8"
chrono = "=0.4.45"
uuid = { version = "=1.27.0", features = ["v4"] }
reqwest = { version = "=0.13.5", default-features = false }
tokio = { version = "=1.53.2", features = ["rt-multi-thread", "macros", "time", "sync"] }
tokio-tungstenite = "=0.30.0"
futures = "=0.3.34"
sea-orm = { version = "=1.1.20", default-features = false, features = ["sqlx-postgres", "runtime-tokio-rustls", "macros", "with-chrono", "with-uuid", "with-json"] }
dotenvy = "=0.15.7"
