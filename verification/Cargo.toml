[package]
name = "audiolizer"
version = "0.1.0"
edition = "2021"
publish = false

[dependencies]
audioviz = "=0.3.0"
colored = "=2.2.0"
cpal = "=0.13.5"
gag = "=1.0.0"
iced = { version = "=0.4.2", features = ["canvas", "tokio"] }
image = { version = "=0.24.9", default-features = false, features = ["png"] }
