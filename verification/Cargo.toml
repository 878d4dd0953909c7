[package]
name = "rlua_async"
version = "0.1.0"
edition = "2021"
publish = false

[dependencies]
futures = "0.3"
rlua = "0.19"
scoped-tls = "1"

[dev-dependencies]
futures-timer = "3"
