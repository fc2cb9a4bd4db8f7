[package]
name = "rustus"
version = "0.1.0"
edition = "2021"
publish = false

[dependencies]
num-bigint = { version = "=0.4.8", features = ["serde"] }
sha2 = "=0.10.9"
sha3 = "=0.10.9"
blake2 = "=0.10.6"
serde = { version = "=1.0.229", features = ["derive"] }
serde_json = "=1.0.154"
jni = { version = "=0.21.1", features = ["invocation"] }
inventory = "=0.3.25"
thiserror = "=1.0.69"
