[package]
name = "duckup"
version = "0.1.0"
edition = "2021"
publish = false

[dependencies]
zip = { version = "*", default-features = false, features = ["deflate"] }
reqwest = { version = "*", default-features = false, features = ["blocking"] }
clap = { version = "*", features = ["derive"] }
serde = { version = "*", features = ["derive"] }
serde_derive = "*"
serde_json = "*"
anyhow = "*"
home = "*"
os_info = "*"
tempfile = "*"
