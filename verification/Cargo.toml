[package]
name = "tllama"
version = "0.1.0"
edition = "2021"
publish = false

[dependencies]
actix-web = "=4.18.1"
anyhow = "=1.0.104"
axum = "=0.8.9"
clap = { version = "=4.6.7", features = ["derive"] }
colored = "=3.1.1"
ctrlc = "=3.5.2"
dirs = "=7.0.0"
encoding_rs = "=0.8.42"
glob = "=0.3.4"
gotpl = "=0.2.6"
gtmpl-moyan = "=0.7.1"
lazy_static = "=1.5.1"
llama-cpp-2 = "=0.1.160"
minijinja = { version = "=3.0.3", features = ["serde"] }
reqwest = { version = "=0.13.5", features = ["blocking"] }
rustyline = "=19.0.0"
serde = { version = "=1.0.229", features = ["derive"] }
serde_json = "=1.0.154"
tempfile = "=3.27.0"
tokio = { version = "=1.54.1", features = ["full"] }
tokio-stream = "=0.1.19"
tracing-subscriber = { version = "=0.3.23", features = ["env-filter"] }
uuid = { version = "=1.29.0", features = ["v4"] }
walkdir = "=2.5.0"
