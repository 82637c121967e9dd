[package]
name = "kilogram-cli"
version = "0.1.0"
edition = "2021"
publish = false

[dependencies]
anyhow = "=1.0.104"
base64 = "=0.22.1"
blake3 = "=1.8.7"
clap = { version = "=4.6.7", default-features = false, features = ["derive", "error-context", "help", "std", "usage"] }
image = { version = "=0.25.10", default-features = false, features = ["jpeg", "png"] }
iroh = { version = "*", default-features = false }
postcard = { version = "=1.1.3", features = ["use-std"] }
qrcode = "=0.14.1"
rqrr = "=0.11.0"
serde = { version = "=1.0.229", features = ["derive"] }
serde_json = "=1.0.154"
tempfile = "=3.27.0"
tokio = { version = "=1.54.1", features = ["full"] }
zeroize = "=1.9.1"
