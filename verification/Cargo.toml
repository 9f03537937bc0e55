[package]
name = "rocket_avionics"
version = "0.1.0"
edition = "2021"
publish = false

[dependencies]
accelerometer = "=0.11.0"
chrono = "=0.4.45"
mma8452q = { version = "=0.1.0", features = ["out_f32"] }
mpl3115 = "=0.1.0"
rascam = "=0.0.2"
rppal = { version = "=0.22.1", features = ["hal"] }
