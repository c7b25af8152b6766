[package]
name = "pyre_kernel"
version = "0.1.0"
edition = "2021"
publish = false

[dependencies]
bit_field = "=0.10.3"
raw-cpuid = "=11.6.0"
spin = "=0.9.9"
log = "=0.4.35"
safe-mmio = "=0.3.2"
limine = "=0.5.0"
