[package]
name = "kbs_core"
version = "0.1.0"
edition = "2021"
publish = false

[dependencies]
serde_json = "=1.0.154"
kbs-types = "=0.6.0"
anyhow = "=1.0.104"
log = "=0.4.34"
tempfile = "=3.27.0"
openssl = "=0.10.81"
async-trait = "=0.1.92"
tokio = { version = "=1.54.1", features = ["time"] }
