[package]
name = "uptime_indicator"
version = "0.1.0"
edition = "2021"
publish = false

[dependencies]
procfs = "=0.15.1"
