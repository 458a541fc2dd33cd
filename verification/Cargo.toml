[package]
name = "raven"
version = "0.1.0"
edition = "2021"
publish = false

[dependencies]
chrono = "0.4"
encoding_rs = "0.8"
hostname = "*"
rand = "*"
serde = { version = "1", features = ["derive"] }
serde_json = "1"
serde_yaml = "*"
reqwest = { version = "*", default-features = false, features = ["blocking", "json", "rustls-tls"] }
rusoto_core = { version = "*", default-features = false, features = ["rustls"] }
rusoto_s3 = { version = "*", default-features = false, features = ["rustls"] }
rs-es = "*"
slack-hook = "*"
log = "0.4"
log4rs = "*"
futures = "0.1"
futures-cpupool = "*"
uuid = { version = "*", features = ["v4"] }
tokio = { version = "1", features = ["rt", "time"] }
