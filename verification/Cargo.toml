[package]
name = "kernel_loader"
version = "0.1.0"
edition = "2021"
publish = false

[dependencies]
uefi = { version = "=0.41.0", features = ["alloc"] }
uefi-raw = "=0.17.0"
acpi = { version = "=5.2.0", default-features = false }
log = "=0.4.34"
x86_64 = { version = "=0.14.13", default-features = false, features = ["instructions"] }
