[package]
name = "ch32v00x_hal"
version = "0.1.0"
edition = "2021"
publish = false

[dependencies]
ch32v0 = { version = "*", features = ["ch32v003"] }
qingke = "*"
riscv = "*"
fugit = "*"
nb = "*"
embedded-hal = "*"
