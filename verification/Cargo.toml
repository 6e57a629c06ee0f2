[package]
name = "rfirma"
version = "0.1.0"
edition = "2021"
publish = false

[dependencies]
base64 = "0.22"
x509-cert = "0.2"
