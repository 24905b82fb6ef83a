[package]
name = "pw_capture_client"
version = "0.1.0"
edition = "2021"
publish = false

[dependencies]
ash = "=0.38.0"
crossbeam-channel = "=0.5.17"
dashmap = "=6.2.1"
libc = "=0.2.190"
log = "=0.4.34"

[dev-dependencies]
