[package]
name = "icmpong"
version = "0.1.0"
edition = "2021"
publish = false

[dependencies]
anyhow = "1"
clap = { version = "4", features = ["derive"] }
crossterm = "0.27"
pnet = "0.34"
rand = "0.8"
