[package]
name = "dmn_runner"
version = "0.1.0"
edition = "2021"
publish = false

[dependencies]
roxmltree = "*"
serde = { version = "*", features = ["derive"] }
serde_json = "*"
serde_yaml = "*"
base64 = "*"
regex = "*"
http = "*"
reqwest = { version = "*", default-features = false, features = ["blocking", "json"] }
lazy_static = "*"
libc = "*"
