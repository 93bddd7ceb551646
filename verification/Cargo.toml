[package]
name = "light_signal"
version = "0.1.0"
edition = "2021"
publish = false

[dependencies]
arrayvec = "0.7"
embedded-hal = "1"
nb = "1"
