[package]
name = "xcm_activities"
version = "0.1.0"
edition = "2021"
publish = false

[dependencies]
parity-scale-codec = { version = "3.6.4", features = ["derive"] }
sp-io = "23.0.0"
staging-xcm = "1.0.0"
