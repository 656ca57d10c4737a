[package]
name = "statsig_rust"
version = "0.1.0"
edition = "2021"
publish = false

[dependencies]
async-trait = "=0.1.92"
brotli = "=9.1.1"
bytes = "=1.12.1"
chrono = "=0.4.45"
lazy_static = "=1.5.1"
log = "=0.4.35"
parking_lot = "=0.13.0"
percent-encoding = "=2.3.2"
prost = "=0.14.4"
rand = "0.8"
reqwest = { version = "0.12", default-features = false, features = ["rustls-tls"] }
serde = { version = "=1.0.229", features = ["derive"] }
serde_json = "=1.0.154"
simple_logger = "=5.2.0"
tempfile = "3"
tokio = { version = "=1.54.1", features = ["rt", "time", "macros"] }
uuid = { version = "=1.29.0", features = ["v4"] }
