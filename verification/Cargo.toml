[package]
name = "rust_collector"
version = "0.1.0"
edition = "2021"
publish = false

[dependencies]
regex = "1"
bytes = "1"
serde = { version = "1", features = ["derive"] }
serde_json = "1"
serde_yaml = "0.9"
anyhow = "1"
log = "0.4"
chrono = "0.4"
tokio = { version = "1", features = ["full"] }
walkdir = "2"
num_cpus = "1"
sysinfo = "*"
futures = "0.3"
async-trait = "0.1"
libc = "0.2"
pretty-hex = "*"
include_dir = "*"
clap = { version = "4", features = ["derive"] }
ssh2 = "*"
rusoto_core = "*"
rusoto_s3 = "*"
rusoto_credential = "*"

[dev-dependencies]
tempfile = "3"
