[package]
name = "max7800x-hal"
version = "0.7.1"
edition = "2021"
publish = false

[dependencies]
cortex-m-rt = "=0.7.5"
embedded-hal = "=1.0.0"
max78000-pac = "*"
paste = "=1.0.15"
rand_core = "=0.9.3"
