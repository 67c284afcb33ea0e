[package]
name = "noxide"
version = "0.1.0"
edition = "2021"
publish = false

[dependencies]
educe = "*"
lazy_static = "1"
log = "0.4"
napi = { version = "2", features = ["napi4"] }
napi-derive = "2"
parking_lot = "0.12"
pem = "3"
rustls-native-certs = "0.8"
sysproxy = "*"
tracing = "0.1"
