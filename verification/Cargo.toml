[package]
name = "parser"
version = "0.1.0"
edition = "2021"
publish = false

[dependencies]
base64 = "=0.23.1"
blake3 = "=1.8.7"
chrono = "=0.4.45"
clap = { version = "=4.6.7", features = ["derive"] }
clickhouse = { version = "=0.15.2", features = ["inserter", "chrono"] }
clickhouse-derive = "=0.2.0"
csv = "=1.4.0"
evtx = "=0.12.3"
flume = "=0.12.0"
libesedb = "=0.2.7"
log = "=0.4.34"
nt-hive = "=0.3.0"
rdkafka = "=0.39.0"
regex = "=1.13.1"
serde = { version = "=1.0.229", features = ["derive"] }
serde_json = { version = "=1.0.151", features = ["preserve_order"] }
serde_yml = "=0.0.13"
tokio = { version = "=1.53.2", features = ["rt-multi-thread", "sync"] }

[dev-dependencies]
rand = "=0.10.3"
