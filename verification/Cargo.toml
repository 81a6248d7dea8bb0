[package]
name = "colcon_deb"
version = "0.1.0"
edition = "2021"
publish = false

[dependencies]
quick-xml = "=0.31.0"
md5 = "=0.7.0"
sha1_smol = "=1.0.1"
sha2 = "=0.10.9"
hex = "=0.4.3"
regex = "1"
serde = { version = "=1.0.229", features = ["derive"] }
serde_yaml = "=0.9.34"
serde_json = "=1.0.154"
clap = { version = "=4.6.7", features = ["derive"] }
tokio = { version = "=1.54.1", features = ["full"] }
color-eyre = "=0.6.5"
tracing = "=0.1.44"
tracing-subscriber = { version = "=0.3.23", features = ["env-filter"] }
walkdir = "=2.5.0"
bollard = "=0.17.1"
futures = "=0.3.34"
indicatif = "=0.17.11"
atty = "=0.2.14"
backoff = "=0.4.0"
chrono = "=0.4.45"
tar = "=0.4.46"
async-trait = "=0.1.92"
thiserror = "=1.0.69"
tempfile = "=3.27.0"
