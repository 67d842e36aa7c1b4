[package]
name = "kaws"
version = "0.1.0"
edition = "2021"
publish = false

[dependencies]
ansi_term = "=0.12.1"
bitstring = "=0.2.1"
cidr = { version = "=0.3.2", features = ["bitstring"] }
clap = "=2.34.0"
env_logger = "=0.11.11"
log = "=0.4.34"
rusoto_core = { version = "=0.48.0", default-features = false, features = ["rustls"] }
rusoto_kms = { version = "=0.48.0", default-features = false, features = ["rustls"] }
rustc-serialize = "=0.3.25"
serde = { version = "=1.0.229", features = ["derive"] }
serde_json = "=1.0.154"
tempdir = "=0.3.7"
tokio = { version = "=1.54.1", features = ["rt", "net", "time"] }
