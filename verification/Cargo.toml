[package]
name = "raspi_gpio"
version = "0.1.0"
edition = "2021"
publish = false

[dependencies]
anyhow = "1"
libc = "0.2"
mmal-sys = "0.1.0-3"
thiserror = "1"
