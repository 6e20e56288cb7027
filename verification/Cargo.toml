[package]
name = "aura_core"
version = "0.1.0"
edition = "2021"
publish = false

[dependencies]
anyhow = "=1.0.104"
log = "=0.4.35"
env_logger = "=0.11.11"
ringbuf = "=0.4.8"
rubato = "=0.16.2"
ort = { version = "=2.0.0-rc.15", default-features = false, features = ["std"] }
wasapi = "=0.26.0"
