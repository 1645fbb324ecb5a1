[package]
name = "bag_pairing"
version = "0.1.0"
edition = "2021"
publish = false

[dependencies]
anyhow = "1"
log = "0.4"
esp32-nimble = "*"
esp-idf-svc = "*"
mpu6050 = "*"
