[package]
name = "kube-playground"
version = "0.1.0"
edition = "2021"
publish = false

[dependencies]
prometheus = "*"
mime = "0.3"
tide = { version = "*", default-features = false, features = ["h1-server", "logger"] }
async-std = { version = "1", features = ["attributes"] }
async-trait = "*"
femme = "*"
lazy_static = "1"
sentry = { version = "*", default-features = false, features = ["panic"] }
dipstick = "*"
serde_json = "1"
jemallocator = "*"
