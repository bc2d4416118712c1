[package]
name = "tunno_sync"
version = "0.1.0"
edition = "2021"
publish = false

[dependencies]
rusqlite = { version = "=0.40.2", features = ["bundled"] }
sha2 = "=0.11.0"
uuid = { version = "=1.27.0", features = ["v4"] }
serde = { version = "=1.0.229", features = ["derive"] }
serde_json = "=1.0.151"
tokio = { version = "=1.53.2", features = ["full"] }
warp = { version = "=0.4.3", features = ["server"] }
chrono = "=0.4.45"
local-ip-address = "=0.6.13"
zip = { version = "=8.6.0", default-features = false }
symphonia = "=0.6.1"
