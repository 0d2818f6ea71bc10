[package]
name = "auth_lib"
version = "0.1.0"
edition = "2021"
publish = false

[dependencies]
num-bigint = { version = "0.4", features = ["rand"] }
num-primes = "0.3"
rand = "0.8"
rustc-hash = "2"
uuid = { version = "1", features = ["v4"] }
