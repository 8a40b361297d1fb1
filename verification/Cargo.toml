[package]
name = "awto"
version = "0.1.0"
edition = "2021"
publish = false

[dependencies]
anyhow = "=1.0.104"
async-trait = "=0.1.92"
bae = "0.1"
better-bae = "*"
clap = { version = "=3.2.25", features = ["derive"] }
colored = "=2.2.0"
env_logger = "=0.9.3"
heck = "=0.3.3"
log = "=0.4.34"
proc-macro2 = "=1.0.107"
quote = "=1.0.47"
serde = { version = "=1.0.229", features = ["derive"] }
sqlx = { version = "=0.5.13", features = ["postgres", "runtime-tokio-rustls"] }
syn = { version = "=1.0.109", features = ["full", "extra-traits"] }
thiserror = "=1.0.69"
tokio = { version = "=1.54.1", features = ["full"] }
tokio-stream = "=0.1.19"
toml = "=0.5.11"
toml_edit = "=0.13.4"
tonic-build = "=0.5.2"
