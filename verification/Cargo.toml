[package]
name = "beetle_core"
version = "0.1.0"
edition = "2021"
publish = false

[dependencies]
atomic = "=0.6.1"
lazy_static = "=1.5.1"
log = "=0.4.34"
raw-cpuid = "=11.6.0"
size_format = "=1.0.2"
spin = "=0.12.3"
uart_16550 = "=0.8.1"
x86_64 = { version = "=0.15.5", default-features = false, features = ["instructions"] }
