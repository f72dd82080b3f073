[package]
name = "osm_rs"
version = "0.1.0"
edition = "2021"
publish = false

[dependencies]
serde_json = "=1.0.151"
reqwest = { version = "=0.13.5", default-features = false, features = ["json", "query"] }
