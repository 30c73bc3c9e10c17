[package]
name = "rdfox_rs"
version = "0.1.0"
edition = "2021"
publish = false

[dependencies]
iref = "=2.2.3"
thiserror = "=1.0.69"
serde = { version = "=1.0.229", features = ["derive"] }
mime = "=0.3.17"
r2d2 = "=0.8.10"
ignore = "=0.4.34"
