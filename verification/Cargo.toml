[package]
name = "ports"
version = "0.1.0"
edition = "2021"
publish = false

[dependencies]
url = "=2.5.8"
kdl = "=6.7.1"
serde = { version = "=1.0.229", features = ["derive"] }
serde_json = "=1.0.151"
semver = "=1.0.28"
fs_extra = "=1.3.0"
directories = "=6.0.0"
sha2 = "=0.11.0"
curl = "=0.4.50"
