[package]
name = "dist_tx"
version = "0.5.0"
edition = "2021"
publish = false

[dependencies]
byteorder = "1"
async-trait = "0.1"
log = "0.4"
thiserror = "1"
