[package]
name = "ayaflow"
version = "0.1.0"
edition = "2021"
publish = false

[dependencies]
anyhow = "=1.0.104"
axum = { version = "=0.8.9", features = ["ws"] }
aya = "=0.13.1"
aya-ebpf = "=0.1.1"
chrono = "=0.4.45"
clap = { version = "=4.6.7", features = ["derive"] }
ctrlc = "=3.5.2"
dashmap = "=6.2.1"
dns-lookup = "=4.0.2"
etherparse = "=0.21.0"
ipnet = "=2.12.2"
network-types = "=0.0.8"
pcap = "=2.5.0"
prometheus-client = "=0.25.1"
rusqlite = { version = "=0.40.2", features = ["bundled"] }
serde = { version = "=1.0.229", features = ["derive"] }
serde_json = "=1.0.154"
serde_yaml = "=0.9.34"
tokio = { version = "=1.54.1", features = ["full"] }
tracing = "=0.1.44"
tracing-subscriber = { version = "=0.3.23", features = ["env-filter"] }
