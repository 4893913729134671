[package]
name = "bitcraps"
version = "0.1.0"
edition = "2021"
publish = false

[dependencies]
uuid = { version = "=1.29.0", features = ["v4"] }
rand = "=0.8.8"
chacha20poly1305 = "=0.10.1"
hkdf = "=0.12.4"
sha2 = "=0.10.9"
hex = "=0.4.3"
flate2 = "=1.1.10"
serde = { version = "=1.0.229", features = ["derive"] }
serde_json = "=1.0.154"
bincode = "=1.3.3"
thiserror = "=1.0.69"
tokio = { version = "1", features = ["sync", "time", "rt", "rt-multi-thread", "macros"] }
lz4 = "1"
chrono = { version = "0.4", default-features = false, features = ["std", "clock"] }
fastrand = "2"
log = "0.4"
parking_lot = "0.12"
lazy_static = "1"
tracing = "0.1"
tracing-subscriber = "0.3"
reqwest = { version = "0.12", default-features = false, features = ["json"] }
sysinfo = "0.29"
procfs = { version = "0.16", default-features = false }
