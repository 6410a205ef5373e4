[package]
name = "arb"
version = "0.1.0"
edition = "2021"
publish = false

[dependencies]
anyhow = "*"
clap = { version = "*", features = ["derive"] }
http_req = "*"
indicatif = "*"
libc = "*"
log = "*"
serde = { version = "*", features = ["derive"] }
serde_json = "*"
shell-words = "*"
ureq = "*"
uuid = { version = "*", features = ["v4"] }
