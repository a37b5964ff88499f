[package]
name = "zenroom_minimal"
version = "0.1.0"
edition = "2021"
publish = false

[dependencies]
zenroom = "=0.3.3"
pyo3 = "=0.30.1"
autopilot = "=0.4.1"
image = "=0.22.5"
