[package]
name = "valkey_roaring"
version = "0.1.0"
edition = "2021"
publish = false

[dependencies]
roaring = "0.11.5"
valkey-module = "0.1"
