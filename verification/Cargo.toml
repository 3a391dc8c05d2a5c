[package]
name = "upstream_sync"
version = "0.1.0"
edition = "2021"
publish = false

[dependencies]
sha2 = "=0.10.9"
hex = "=0.4.3"
tokio = { version = "=1.53.2", features = ["rt", "rt-multi-thread", "fs", "process", "io-util", "macros"] }
futures = "=0.3.34"
url = "=2.5.8"
clap = "=4.6.7"
nix = { version = "=0.27.1", features = ["fs"] }
thiserror = "=1.0.69"
