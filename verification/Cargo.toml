[package]
name = "relay_selector"
version = "0.1.0"
edition = "2021"
publish = false

[dependencies]
rand = "=0.8.8"
log = "=0.4.34"
thiserror = "=1.0.69"
serde = { version = "=1.0.229", features = ["derive"] }
clap = { version = "=4.6.7", features = ["derive"] }
tracing-subscriber = { version = "=0.3.23", features = ["env-filter", "chrono"] }
ipnetwork = "=0.21.1"
nix = "=0.31.3"
err-derive = "=0.3.1"
jnix = { version = "=0.5.3", features = ["derive"] }
android_logger = "=0.15.1"
