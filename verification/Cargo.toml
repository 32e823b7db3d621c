[package]
name = "prost-twirp"
version = "0.1.0"
edition = "2021"
publish = false

[dependencies]
hyper = { version = "0.14", features = ["client", "server", "http1", "tcp"] }
prost = "0.11"
prost-build = "0.11"
serde_json = "1"
futures = "0.3"
