[package]
name = "yarc_launcher"
version = "0.1.0"
edition = "2021"
publish = false

[dependencies]
minisign = "0.7"
clap = { version = "4", features = ["derive"] }
directories = "5"
futures-util = "0.3"
lazy_static = "1"
log = "0.4"
online = "4"
opener = { version = "0.7", features = ["reveal"] }
reqwest = { version = "0.12", features = ["stream"] }
serde = { version = "1", features = ["derive"] }
sevenz-rust = { version = "0.6", features = ["aes256"] }
zip-extract = "0.1"
