[package]
name = "lorri"
version = "0.1.0"
edition = "2021"
publish = false

[dependencies]
log = "0.4"
serde = "=1.0.229"
serde_json = "=1.0.154"
tempfile = "=3.27.0"
vec1 = "=1.12.1"
