[package]
name = "fwflash"
version = "0.1.0"
edition = "2021"
publish = false

[dependencies]
anyhow = "=1.0.104"
clap = { version = "=4.6.7", features = ["derive"] }
elevate = "=0.6.1"
spinoff = "=0.8.0"
sys-mount = { version = "=3.1.0", default-features = false }
sysinfo = "=0.39.6"
