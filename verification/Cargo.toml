[package]
name = "icmp_ping"
version = "0.1.0"
edition = "2021"
publish = false

[dependencies]
anyhow = "*"
dns-lookup = "*"
nix = { version = "*", features = ["net"] }
pnet = "*"
