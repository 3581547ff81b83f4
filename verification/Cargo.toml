[package]
name = "nvml_ocsd_reporter"
version = "0.1.0"
edition = "2021"
publish = false

[dependencies]
ctrlc = "=3.5.2"
log = "=0.4.34"
nvml-wrapper = "=0.13.0"
ocsd = { version = "=0.1.1", features = ["devmem"] }
serde = { version = "=1.0.229", features = ["derive"] }
serde_json = "=1.0.154"
simple_logger = "=5.2.0"
systemd-journal-logger = "=2.2.2"
