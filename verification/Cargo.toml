[package]
name = "labrinth"
version = "0.1.0"
edition = "2021"
publish = false

[dependencies]
rand = "=0.8.8"
rand_chacha = "=0.3.1"
censor = "=0.3.0"
spdx = { version = "=0.10.9", features = ["text"] }
ssh-key = "=0.6.7"
pgp = "=0.10.2"
serde = { version = "=1.0.229", features = ["derive"] }
serde_json = "=1.0.154"
sha1 = { version = "=0.6.1", features = ["std"] }
