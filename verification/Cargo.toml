[package]
name = "htmlpacker"
version = "0.1.0"
edition = "2021"
publish = false

[dependencies]
base64 = "0.22"
brotli = "*"
sha2 = "0.10"
url = "2"
serde = { version = "1", features = ["derive"] }
serde_yaml = "0.9"
clap = { version = "4", features = ["derive"] }
reqwest = { version = "0.12", default-features = false }
tokio = { version = "1", features = ["rt-multi-thread", "macros"] }
futures = "0.3"
