[package]
name = "gyazo"
version = "0.1.0"
edition = "2021"
publish = false

[dependencies]
url = { version = "=2.5.8", features = ["serde"] }
serde_json = "=1.0.154"
serde = { version = "1", features = ["derive"] }
http = "1"
reqwest = { version = "=0.12.28", features = ["json", "multipart", "stream"] }
tokio = { version = "1", features = ["fs", "io-util", "macros", "rt-multi-thread"] }
clap = { version = "4", features = ["derive", "env"] }
color-eyre = "0.6"
futures-util = "0.3"
async-stream = "0.3"
thiserror = "1"
toml = "0.8"
dirs = "5"
open = "5"
tempfile = "3"
