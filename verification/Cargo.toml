[package]
name = "rust_sniffer"
version = "0.1.0"
edition = "2021"

[dependencies]
crossterm = "0.25"
env_logger = "0.10"
log = "0.4"
pnet_datalink = "*"
tui = "0.19"
