[package]
name = "wg_iface"
version = "0.1.0"
edition = "2021"
publish = false

[dependencies]
failure = "0.1"
pnetlink = "*"
pnet_macros_support = "*"
