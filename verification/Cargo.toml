[package]
name = "dirtio"
version = "0.1.0"
edition = "2021"
publish = false

[dependencies]
crossbeam-queue = "0.3"
futures = "0.3"
mio = { version = "0.8", features = ["os-poll", "net"] }
sharded-slab = "0.1"
