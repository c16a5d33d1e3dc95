[package]
name = "rebg"
version = "0.1.0"
edition = "2021"
publish = false

[dependencies]
anyhow = "=1.0.104"
argh = "=0.1.19"
bollard = "=0.15.0"
capstone = "0.14"
futures = "=0.3.34"
goblin = "=0.7.1"
hex = "=0.4.3"
itertools = "=0.11.0"
object = "=0.32.2"
regex = "=1.13.1"
serde = { version = "=1.0.229", features = ["derive"] }
serde_json = "=1.0.154"
strum = { version = "=0.25.0", features = ["derive"] }
tar = "=0.4.46"
thiserror = "=1.0.69"
tokio = { version = "=1.54.1", features = ["rt", "rt-multi-thread"] }
tracing = "=0.1.44"
tracing-subscriber = { version = "=0.3.23", features = ["env-filter"] }
tungstenite = "=0.20.1"
