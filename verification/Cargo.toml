[package]
name = "annunciator"
version = "0.1.0"
edition = "2021"
publish = false

[dependencies]
defmt = "=1.2.0"
defmt-rtt = "=1.3.1"
device-envoy-core = "=0.1.6"
device-envoy-rp = "=0.1.5"
embassy-executor = "=0.10.0"
embassy-rp = "=0.10.0"
panic-probe = "=1.0.0"
