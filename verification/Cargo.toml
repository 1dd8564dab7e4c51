[package]
name = "trenako"
version = "0.1.0"
edition = "2021"
publish = false

[dependencies]
anyhow = "=1.0.104"
async-trait = "=0.1.92"
chrono = "=0.4.45"
http = "=1.5.0"
isocountry = "=0.3.2"
itertools = "=0.15.0"
rust_decimal = "=1.43.0"
slug = "=0.1.6"
thiserror = "=2.0.21"
url = "=2.5.8"
validator = "*"

[dev-dependencies]
serde_json = "1"
