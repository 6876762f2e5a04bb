[package]
name = "confutils"
version = "0.1.0"
edition = "2021"
publish = false

[dependencies]
rand = "*"
serde_json = "=1.0.151"
sha2 = "=0.11.0"
sysinfo = "=0.39.6"
reqwest = { version = "=0.13.5", default-features = false, features = ["blocking", "json"] }
