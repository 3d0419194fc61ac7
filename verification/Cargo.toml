[package]
name = "observable"
version = "0.1.0"
edition = "2021"
publish = false

[dependencies]
sycamore-reactive = "=0.7.1"
syn = { version = "=1.0.109", features = ["full"] }
proc-macro2 = "=1.0.107"
quote = "=1.0.47"
