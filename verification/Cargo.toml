[package]
name = "hash_set_map"
version = "0.1.0"
edition = "2021"

[dependencies]
hex = "0.4"
sha1 = "0.10"
