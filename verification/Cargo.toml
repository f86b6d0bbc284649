[package]
name = "dtop"
version = "0.1.0"
edition = "2021"
publish = false

[dependencies]
ansi-to-tui = "=8.0.1"
bollard = { version = "=0.21.1", features = ["ssh", "ssl"] }
chrono = "=0.4.45"
clap = { version = "=4.6.7", features = ["derive"] }
crossterm = "=0.29.0"
dirs = "=7.0.0"
futures-util = "=0.3.34"
open = "=5.4.5"
ratatui = "=0.30.2"
serde = { version = "=1.0.229", features = ["derive"] }
serde_json = "=1.0.154"
serde_yaml = "=0.9.34"
timeago = "=0.6.1"
tokio = { version = "=1.54.1", features = ["full"] }
tracing = "=0.1.44"
tracing-subscriber = { version = "=0.3.23", features = ["env-filter"] }
tui-input = "=0.15.5"
url = "=2.5.8"
