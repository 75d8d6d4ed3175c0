[package]
name = "mailrelay"
version = "0.1.0"
edition = "2021"
publish = false

[dependencies]
mail-parser = "*"
base64 = "0.22"
ureq = "*"
