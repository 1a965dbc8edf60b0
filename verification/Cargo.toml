[package]
name = "rocksdb"
version = "0.1.0"
edition = "2021"
publish = false

[dependencies]
librocksdb-sys = { version = "=0.19.0", default-features = false }
libc = "=0.2.191"
