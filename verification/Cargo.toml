[package]
name = "draw_read"
version = "0.1.0"
edition = "2021"
publish = false

[dependencies]
image = { version = "=0.25.10", default-features = false }
num-traits = "=0.2.19"
serde = { version = "=1.0.229", features = ["derive"] }
serde_json = "=1.0.154"
directories = "=5.0.1"
mouse_position = "=0.1.4"
ocrs = "=0.13.1"
rten = "=0.26.0"
