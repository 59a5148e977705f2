[package]
name = "nrf_embed"
version = "0.1.0"
edition = "2021"
publish = false

[dependencies]
heapless = "=0.9.3"
fugit = "=0.3.9"
critical-section = { version = "=1.2.0", features = ["std"] }
cortex-m = "=0.7.10"
embedded-hal = "=1.0.0"
microbit-v2 = "=0.16.0"
rtt-target = "=0.6.2"
serde = { version = "=1.0.229", features = ["derive"] }
serde_json = "=1.0.154"
