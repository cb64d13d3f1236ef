[package]
name = "dummycloud"
version = "0.1.0"
edition = "2021"
publish = false

[dependencies]
aes = "0.8"
bytes = "0.5"
cbc = { version = "0.1", features = ["alloc"] }
getopts = "0.2"
md5 = "0.7"
serde = { version = "1", features = ["derive"] }
serde_json = "1"
