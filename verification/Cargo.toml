[package]
name = "tokscale_bucket_tz"
version = "0.1.0"
edition = "2021"
publish = false

[dependencies]
anyhow = "1"
chrono = "0.4"
chrono-tz = "0.10"
colored = "*"
iana-time-zone = "0.1"
tracing = "0.1"
