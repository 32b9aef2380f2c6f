[package]
name = "kators"
version = "0.1.0"
edition = "2021"
publish = false

[dependencies]
anyhow = "1"
bson = "2"
dirs = "4"
eframe = "0.18"
futures = "0.3"
log = "0.4"
openssl = "0.10"
rdkafka = "0.28"
serde = { version = "1", features = ["derive"] }
sled = "0.34"
thiserror = "1"
tracing-subscriber = "0.3"
