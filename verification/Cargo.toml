[package]
name = "gun_wallet"
version = "0.1.0"
edition = "2021"
publish = false

[dependencies]
anyhow = "1"
bdk = { version = "=0.16.1", default-features = false }
structopt = "0.3"
