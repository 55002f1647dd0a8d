[package]
name = "telemetry_sampler"
version = "0.1.0"
edition = "2021"
publish = false

[dependencies]
anyhow = "=1.0.104"
nvml-wrapper = "=0.13.0"
winapi = { version = "=0.3.9", features = ["psapi"] }
wmi = "=0.13.4"
