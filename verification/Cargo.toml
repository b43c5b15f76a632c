[package]
name = "call_handler"
version = "0.1.0"
edition = "2021"
publish = false

[dependencies]
anyhow = "=1.0.104"
async-trait = "=0.1.92"
log = "=0.4.35"
wacore = { version = "=0.7.0", default-features = false, features = ["voip"] }
wacore-binary = { version = "=0.7.0", default-features = false }

[dev-dependencies]
async-channel = "=2.5.0"
