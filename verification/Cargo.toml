[package]
name = "kodbot"
version = "0.1.0"
edition = "2021"
publish = false

[dependencies]
clap = "=4.6.7"
reqwest = "=0.11.27"
serde = { version = "=1.0.229", features = ["derive"] }
serde_json = "=1.0.154"
time = "=0.3.55"
tokio = { version = "=1.54.1", features = ["macros", "rt-multi-thread", "time"] }
toml = "=0.8.23"
twilight-gateway = "=0.15.4"
twilight-http = "=0.15.4"
twilight-model = "=0.15.4"
vesper = "=0.13.0"
