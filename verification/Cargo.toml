[package]
name = "vehicle-information-service"
version = "0.1.0"
edition = "2021"
publish = false

[dependencies]
actix = "0.10"
actix-web = { version = "3", default-features = false }
actix-web-actors = "3"
async-tungstenite = { version = "=0.4.2", features = ["tokio-runtime"] }
futures = "=0.3.34"
futures-util = "=0.3.34"
http = "=0.2.12"
log = "0.4"
serde = { version = "=1.0.229", features = ["derive"] }
serde_json = "=1.0.154"
thiserror = "=1.0.69"
tokio = { version = "=0.2.25", features = ["macros", "rt-threaded", "tcp", "time", "stream"] }
tokio-tungstenite = "=0.10.1"
tungstenite = "=0.10.1"
url = "=2.5.8"
uuid = { version = "=0.8.2", features = ["v4", "serde"] }
