[package]
name = "ir_recorder"
version = "0.1.0"
edition = "2021"
publish = false

[dependencies]
heapless = "=0.8.0"
log = "=0.4.34"
enumset = "=1.1.15"
esp-idf-svc = "=0.53.0"
esp-idf-hal = { version = "=0.47.0", features = ["rmt-legacy"] }
