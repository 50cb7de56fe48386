[package]
name = "nunu_cli"
version = "0.1.0"
edition = "2021"
publish = false

[dependencies]
clap = { version = "=4.6.7", features = ["derive", "env"] }
directories = "=6.0.0"
dotenvy = "=0.15.7"
env_logger = "=0.11.11"
futures = "=0.3.34"
glob = "=0.3.4"
indicatif = "=0.18.6"
log = "=0.4.34"
reqwest = { version = "=0.13.5", default-features = false, features = ["json", "query"] }
serde = { version = "=1.0.229", features = ["derive"] }
serde_json = "=1.0.151"
thiserror = "=2.0.21"
tokio = { version = "=1.53.2", features = ["fs", "io-util", "macros", "rt-multi-thread", "signal", "sync"] }
tokio-util = { version = "=0.7.19", features = ["io"] }
url = "=2.5.8"
