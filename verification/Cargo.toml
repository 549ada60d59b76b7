[package]
name = "rpush"
version = "0.1.0"
edition = "2021"
publish = false

[dependencies]
base64 = "0.21"
clap = { version = "4", features = ["cargo"] }
confy = "0.5"
dirs = "5"
flate2 = "1"
indicatif = "0.17"
mac_address = "1"
nu-ansi-term = "0.46"
rpassword = "7"
rust-crypto = "0.2.36"
serde = { version = "1", features = ["derive"] }
ssh-rs = "0.3"
tar = "0.4"
