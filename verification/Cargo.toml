[package]
name = "octocat"
version = "0.1.0"
edition = "2021"
publish = false

[dependencies]
byteorder = "*"
hyper = "0.10"
iron = "0.6"
lazy_static = "*"
mime = "0.2"
openssl = "*"
regex = "*"
rmp = "*"
rmp-serde = "*"
rusqlite = "*"
rustc-serialize = "0.3"
serde = { version = "1", features = ["derive"] }
serde_json = "1"
toml = "*"
uuid = { version = "*", features = ["v4"] }
