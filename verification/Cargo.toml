[package]
name = "telemetry_writer"
version = "0.1.0"
edition = "2021"
publish = false

[dependencies]
anyhow = "1.0"
hdf5 = "0.8"
ndarray = "0.15"
sysinfo = "0.29"
