[package]
name = "hyperlight_core"
version = "0.1.0"
edition = "2021"
publish = false

[dependencies]
crossbeam-channel = "*"
kvm-bindings = "*"
mshv-bindings = "*"
log = "*"
serde = { version = "*", features = ["derive"] }
serde_json = "*"
