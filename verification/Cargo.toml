[package]
name = "container_import"
version = "0.1.0"
edition = "2021"
publish = false

[dependencies]
anyhow = "1"
bytes = "1"
flate2 = "1"
futures = "0.3"
hex = "0.4"
libc = "0.2"
nix = "*"
openssl = "0.10"
os_pipe = "1"
serde = { version = "1", features = ["derive"] }
serde_json = "1"
tokio = { version = "1", features = ["full"] }
tokio-fd = "*"
tokio-stream = "0.1"
tokio-util = { version = "0.7", features = ["io"] }

[dev-dependencies]
tar = "0.4"
