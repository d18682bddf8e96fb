[package]
name = "cpu_harvest"
version = "0.1.0"
edition = "2021"
publish = false

[dependencies]
futures = "=0.3.34"
futures-timer = "=3.0.4"
sysinfo = "=0.39.6"
