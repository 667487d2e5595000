[package]
name = "http_cache"
version = "0.1.0"
edition = "2021"
publish = false

[dependencies]
http-cache-semantics = "*"
http = "*"
httpdate = "*"
serde = { version = "*", features = ["derive"] }
bytes = "*"
futures-util = "*"
http-body = "*"
http-body-util = "*"
url = "*"
