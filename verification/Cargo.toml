[package]
name = "ndk_bitmap"
version = "0.1.0"
edition = "2021"
publish = false

[dependencies]
ndk-sys = { version = "0.6", features = ["test"] }
jni-sys = "0.3"
thiserror = "1"
