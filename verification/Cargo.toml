[package]
name = "unit_lifecycle"
version = "0.1.0"
edition = "2021"
publish = false

[dependencies]
ic-cdk = "0.9"
