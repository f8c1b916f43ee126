[package]
name = "ndsrom"
version = "0.1.0"
edition = "2021"
publish = false

[dependencies]
anyhow = "=1.0.104"
image = "=0.25.10"
object = { version = "=0.40.0", features = ["write"] }
