[package]
name = "cluster_status"
version = "0.1.0"
edition = "2021"
publish = false

[dependencies]
clap = { version = "=4.6.7", features = ["derive"] }
fluvio = "=0.50.1"
fluvio-controlplane-metadata = "=0.50.1"
fluvio-future = "=0.8.3"
fluvio-smartmodule = "=0.50.1"
futures-util = "=0.3.34"
serde = { version = "=1.0.229", features = ["derive"] }
serde_json = "=1.0.154"
