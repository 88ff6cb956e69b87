[package]
name = "rustiebox"
version = "0.1.0"
edition = "2021"
publish = false

[dependencies]
embedded-hal = "*"
heapless = "*"
mfrc522 = "*"
