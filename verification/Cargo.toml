[package]
name = "cosmic_ext_calculator"
version = "0.1.0"
edition = "2021"
publish = false

[dependencies]
regex = "1"
calculator-rs = "0.1.2"
serde = { version = "1", features = ["derive"] }
tokio = { version = "1", features = ["sync", "rt", "process", "io-util"] }
tokio-stream = "0.1"
futures = "0.3"
pop-launcher = "1.2.7"
tracing = "0.1"
tracing-subscriber = { version = "0.3", features = ["env-filter"] }
env_logger = "0.11"
open = "5"
