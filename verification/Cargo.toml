[package]
name = "wayland_server"
version = "0.1.0"
edition = "2021"
publish = false

[dependencies]
wayland-commons = "0.23"
wayland-sys = { version = "0.23", features = ["server", "dlopen"] }
