[package]
name = "xcolor"
version = "0.5.0"
edition = "2021"
publish = false

[dependencies]
anyhow = "1.0"
clap = "2.33"
failure = "0.1"
lazy_static = "1.4"
nix = "0.17"
x11 = { version = "2.18", features = ["xlib", "xcursor"] }
xcb = { version = "0.9", features = ["shape", "xlib_xcb"] }
