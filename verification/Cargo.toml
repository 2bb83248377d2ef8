[package]
name = "gcode_wrangler"
version = "0.1.0"
edition = "2021"
publish = false

[dependencies]
axum = "=0.6.20"
config = "=0.13.4"
image = "=0.24.9"
imageproc = "=0.23.1"
serde = { version = "=1.0.229", features = ["derive"] }
serialport = { version = "=4.10.1", default-features = false }
tokio = { version = "=1.53.2", features = ["sync", "rt-multi-thread", "macros"] }
tower-http = { version = "=0.4.4", features = ["trace"] }
tracing = "=0.1.44"
tracing-subscriber = "=0.3.23"
