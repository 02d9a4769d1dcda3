[package]
name = "ctasks"
version = "0.1.0"
edition = "2021"
publish = false

[dependencies]
sysinfo = "0.30"
battery = "0.7"
rust-ini = "0.21"
