[package]
name = "photobooth"
version = "0.1.0"
edition = "2021"
publish = false

[dependencies]
async-stream = "0.3"
axum = "0.8"
gphoto2 = "*"
gpiod = "*"
prost = "0.13"
prost-types = "0.13"
tokio = { version = "1", features = ["full"] }
tonic = "0.13"
tonic-reflection = "0.13"
tower = "0.5"
