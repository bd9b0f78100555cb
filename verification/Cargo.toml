[package]
name = "rustmob"
version = "0.1.0"
edition = "2021"
publish = false

[dependencies]
anyhow = "=1.0.104"
async-std = "=1.13.2"
chrono = "=0.4.45"
clap = "=2.34.0"
firebase-rs = "=1.0.3"
machine-uid = "=0.2.0"
md5 = "=0.7.0"
notify-rust = "=4.18.2"
serde_json = "=1.0.154"
