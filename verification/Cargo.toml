[package]
name = "obs_backend"
version = "0.1.0"
edition = "2021"
publish = false

[dependencies]
http = "0.2"
reqsign = "0.8"
bytes = "1"
