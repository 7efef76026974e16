[package]
name = "readengine"
version = "0.1.0"
edition = "2021"
publish = false

[dependencies]
poolcache = "*"
hyper = "0.10"
libc = "*"
