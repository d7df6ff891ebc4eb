[package]
name = "cloud"
version = "0.1.0"
edition = "2021"
publish = false

[dependencies]
regex = "=1.13.1"
itertools = "=0.10.5"
tokio = { version = "1", features = ["full"] }
openssh = "0.8"
tsunami = "=0.11.1"
color-eyre = "0.5"
serde = { version = "1", features = ["derive"] }
serde_json = "1"
structopt = "0.3"
tracing = "0.1"
tracing-subscriber = "0.2"
tracing-futures = "0.2"
futures-util = "0.3"
