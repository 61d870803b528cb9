[package]
name = "rdev_node"
version = "0.1.0"
edition = "2021"
publish = false

[dependencies]
evdev = "0.13"
napi = { version = "3", features = ["napi9"] }
napi-derive = "3"
nix = { version = "0.29", features = ["poll"] }
once_cell = "1"
rdev = "0.5.3"
wayland-client = "0.31"
wayland-protocols = { version = "0.32", features = ["client", "unstable"] }
x11rb = "0.13"
