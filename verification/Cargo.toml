[package]
name = "packet-sniffer"
version = "0.1.0"
edition = "2021"
publish = false

[dependencies]
etherparse = "*"
clap = { version = "*", features = ["derive"] }
crossterm = "*"
pcap = "*"
