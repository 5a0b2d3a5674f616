[package]
name = "authentik_router"
version = "0.1.0"
edition = "2021"
publish = false

[dependencies]
axum = { version = "=0.8.9", features = ["ws"] }
axum-server = { version = "=0.8.0", features = ["tls-openssl"] }
chrono = "=0.4.45"
futures = "=0.3.34"
http = "=1.5.0"
http-auth-basic = "=0.3.7"
hyper = { version = "=1.11.1", features = ["client", "http1"] }
hyper-util = { version = "=0.1.21", features = ["client", "client-legacy", "http1", "tokio"] }
hyperlocal = "=0.9.1"
nix = { version = "=0.31.3", features = ["signal"] }
openssl = "=0.10.81"
prometheus = "=0.14.0"
serde = { version = "=1.0.229", features = ["derive"] }
serde_json = "=1.0.151"
tempfile = "=3.27.0"
tokio = { version = "=1.53.2", features = ["rt-multi-thread", "macros", "signal", "fs", "time", "sync", "net", "io-util"] }
tokio-tungstenite = "=0.30.0"
tower-http = { version = "=0.7.1", features = ["fs"] }
