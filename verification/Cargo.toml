[package]
name = "verify_rust"
version = "0.1.0"
edition = "2021"
publish = false

[dependencies]
borsh = "0.10"
smallvec = { version = "1", features = ["const_new"] }
tinyvec = { version = "1", features = ["rustc_1_55", "alloc"] }
libc = "0.2"
