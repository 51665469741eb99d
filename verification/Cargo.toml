[package]
name = "vehicle_daq"
version = "0.1.0"
edition = "2021"
publish = false

[dependencies]
byteorder = "=1.5.0"
cobs = "=0.3.0"
heapless = "=0.9.3"
serde = { version = "=1.0.229", features = ["derive"] }
csv = "=1.4.0"
serialport = { version = "=4.10.1", default-features = false }
log = "=0.4.35"
env_logger = "=0.11.11"
chrono = "=0.4.45"
clap = { version = "=4.6.7", features = ["derive"] }
nalgebra = "=0.34.2"
ahrs = "=0.8.0"
embedded-hal = "=1.0.0"
embedded-hal-async = "=1.0.0"
