[package]
name = "nexgen"
version = "0.1.0"
edition = "2021"
publish = false

[dependencies]
heck = "=0.5.0"
indexmap = "=2.14.2"
prost-types = "=0.14.4"
serde = { version = "=1.0.229", features = ["derive"] }
serde_json = { version = "=1.0.154", features = ["preserve_order"] }
tempfile = "=3.27.0"
wit-parser = "=0.249.0"
