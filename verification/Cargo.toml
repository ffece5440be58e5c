[package]
name = "kcidb_restd"
version = "0.1.0"
edition = "2021"
publish = false

[dependencies]
jsonwebtoken = { version = "=11.1.0", features = ["aws_lc_rs"] }
rand = "=0.10.3"
serde_json = "=1.0.151"
axum = "=0.8.9"
axum-server = { version = "=0.8.0", features = ["tls-rustls"] }
clap = { version = "=4.6.7", features = ["derive"] }
tokio = { version = "=1.53.2", features = ["rt-multi-thread", "macros", "net"] }
tower-http = { version = "=0.7.1", features = ["limit"] }
