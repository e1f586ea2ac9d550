[package]
name = "master_browser"
version = "0.1.0"
edition = "2021"
publish = false

[dependencies]
ext4_rs = "*"
serde = { version = "1", features = ["derive"] }
serde_json = "1"
sysinfo = "0.29"
walkdir = "2"
zip = "0.6"
regex = "1"
sha2 = "0.10"
md-5 = "0.10"
base64 = "0.21"
image = "0.24"
hex = "0.4"
flate2 = "1"
tar = "0.4"
reqwest = { version = "0.11", features = ["json"] }
