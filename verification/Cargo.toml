[package]
name = "dynomite_retry"
version = "0.1.0"
edition = "2021"
publish = false

[dependencies]
futures-backoff = "0.1"
log = "0.4"
rusoto_core = { version = "0.42", default-features = false, features = ["rustls"] }
rusoto_dynamodb = { version = "0.42", default-features = false, features = ["rustls"] }
futures = "0.1"
