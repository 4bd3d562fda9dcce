[package]
name = "polypaper"
version = "0.1.0"
edition = "2021"
publish = false

[dependencies]
cgmath = "=0.17.0"
chrono = "=0.4.45"
quicksilver = { version = "=0.3.22", default-features = false }
rand = "=0.7.3"
