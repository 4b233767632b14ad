[package]
name = "node_exporter"
version = "0.1.0"
edition = "2021"
publish = false

[dependencies]
bytes = "=1.12.1"
itoa = { version = "=0.4.8", features = ["i128"] }
dtoa = "=0.4.8"
futures = "=0.3.34"
heim = { version = "=0.1.0-rc.1", features = ["cpu", "disk", "host", "memory", "net"] }
tide = "=0.16.0"
metrics = "=0.12.1"
metrics-core = "=0.5.2"
metrics-runtime = "=0.13.1"
