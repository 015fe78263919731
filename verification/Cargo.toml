[package]
name = "bitmap_hash"
version = "0.1.0"
edition = "2021"
publish = false

[dependencies]
farmhash = "*"
xxhash-rust = { version = "*", features = ["xxh3"] }
