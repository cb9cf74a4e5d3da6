[package]
name = "initrt"
version = "0.1.0"
edition = "2021"
publish = false

[dependencies]
linux-raw-sys = { version = "*", features = ["loop_device"] }
rustix = { version = "*", features = ["fs", "mount", "process", "runtime", "stdio"] }
