[package]
name = "cryptography-x509"
version = "0.1.0"
edition = "2021"
publish = false

[dependencies]
asn1 = "0.21"
