[package]
name = "clawbang"
version = "0.1.0"
edition = "2021"
publish = false

[dependencies]
cacache = "10"
clap = { version = "3", features = ["derive", "env"] }
eyre = "0.6"
hex = "0.4"
home = "0.5"
serde = { version = "1", features = ["derive"] }
serde_json = "1"
sha2 = "0.10"
subprocess = "0.2"
tempfile = "3"
toml = "0.5"
