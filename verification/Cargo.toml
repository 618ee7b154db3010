[package]
name = "issen"
version = "0.1.0"
edition = "2021"
publish = false

[dependencies]
anyhow = "=1.0.104"
chrono = "=0.4.45"
forensicnomicon = "=1.12.1"
hex = "=0.4.3"
jiff = "=0.2.39"
serde = { version = "=1.0.229", features = ["derive"] }
serde_json = "=1.0.154"
sha2 = "=0.10.9"
thiserror = "=2.0.21"
zip = "=9.2.2"
winevt-core = "=0.3.0"
forensic-carve = "=0.1.1"
forensic-vfs = "=0.9.0"

[dev-dependencies]
csv = "=1.4.0"
