[package]
name = "hotpatch"
version = "0.1.0"
edition = "2021"
publish = false

[dependencies]
aes-gcm = "0.10"
anyhow = "1"
base64 = "0.22"
bytesize = "1"
clap = { version = "4", features = ["derive"] }
colored = "2"
dialoguer = "0.11"
dirs = "5"
ed25519-dalek = { version = "2", features = ["rand_core"] }
hex = "0.4"
indicatif = "0.17"
qbsdiff = "1.4"
rand = "0.8"
reqwest = { version = "0.12", default-features = false, features = ["json", "multipart"] }
serde = { version = "1", features = ["derive"] }
serde_json = "1"
sha2 = "0.10"
tiny_http = "0.12"
tokio = { version = "1", features = ["rt-multi-thread", "macros", "fs"] }
toml = "0.8"
url = "2"
walkdir = "2"
webbrowser = "1"
zip = { version = "2", default-features = false, features = ["deflate"] }
