[package]
name = "token_controller"
version = "0.1.0"
edition = "2021"
publish = false

[dependencies]
cosmwasm-std = "1.5"
cosmwasm-schema = "1.5"
cw-utils = "1"
cw2 = "1"
cw-storage-plus = "1"
neutron-sdk = "0.8"
