[package]
name = "spur"
version = "0.1.1"
edition = "2021"
publish = false

[dependencies]
clap = "3"
futures = "0.3"
gstreamer = "0.17"
gstreamer-video = "0.17"
home = "0.5"
num-rational = "0.4"
reqwest = { version = "0.11", default-features = false, features = ["json"] }
serde = { version = "1", features = ["derive"] }
tokio = { version = "1", features = ["rt"] }
x11rb = "0.10"
