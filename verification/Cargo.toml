[package]
name = "xscreen"
version = "0.1.0"
edition = "2021"
publish = false

[dependencies]
chrono = "0.4"
clap = "4"
image = { version = "0.25", default-features = false, features = ["png"] }
libc = "0.2"
x11 = { version = "2", features = ["xlib"] }
