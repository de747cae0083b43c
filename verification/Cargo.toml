[package]
name = "ipscan"
version = "0.1.0"
edition = "2021"
publish = false

[dependencies]
serde_json = "=1.0.154"
pnet = "=0.35.0"
ipnetwork = "=0.21.1"
nu-plugin = "=0.115.1"
nu-protocol = "=0.115.1"
