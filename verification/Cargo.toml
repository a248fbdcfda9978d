[package]
name = "dns_ptr_resolver"
version = "0.1.0"
edition = "2021"
publish = false

[dependencies]
hickory-client = "=0.24.4"
hickory-resolver = "=0.24.4"
rayon = "=1.12.0"
weighted-rs = "=0.1.3"

[dev-dependencies]
rustdns = "=0.7.0"
