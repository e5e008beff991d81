[package]
name = "koto_playground"
version = "0.1.0"
edition = "2021"
publish = false

[dependencies]
koto = "=0.11.0"
koto_random = "=0.11.0"
rand = "=0.8.8"
