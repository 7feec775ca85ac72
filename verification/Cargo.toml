[package]
name = "lpc8xx_hal"
version = "0.1.0"
edition = "2021"
publish = false

[dependencies]
cortex-m = "=0.7.9"
embedded-hal = { version = "=0.2.7", features = ["unproven"] }
nb = "=0.1.3"
void = "=1.0.2"
