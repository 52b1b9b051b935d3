[package]
name = "nebo_cli"
version = "0.1.0"
edition = "2021"
publish = false

[dependencies]
chrono = "0.4"
clap = "2.33"
dialoguer = "0.5"
http = "0.2"
log = "0.4"
log4rs = "0.10"
reqwest = { version = "0.10", default-features = false, features = ["blocking", "cookies", "rustls-tls"] }
rusoto_core = { version = "0.42", default-features = false, features = ["rustls"] }
rusoto_s3 = { version = "0.42", default-features = false, features = ["rustls"] }
rusoto_cognito_identity = { version = "0.42", default-features = false, features = ["rustls"] }
serde = { version = "1", features = ["derive"] }
serde_json = "1"
threadpool = "1.8"
url = "2"
