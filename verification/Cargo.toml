[package]
name = "mandelbrot"
version = "0.1.0"
edition = "2021"
publish = false

[dependencies]
anyhow = "1"
bytemuck = "1"
image = { version = "0.24", default-features = false, features = ["png"] }
libm = "0.2"
num = "0.4"
regex = "1"
tokio = { version = "1", features = ["rt-multi-thread", "macros"] }
