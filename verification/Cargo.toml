[package]
name = "gossip_store"
version = "0.1.0"
edition = "2021"
publish = false

[dependencies]
rusqlite = { version = "=0.40.2", features = ["fallible_uint"] }
nostr-types = "=0.4.0"
r2d2 = "=0.8.10"
r2d2_sqlite = "=0.35.0"
dirs = "=7.0.0"
