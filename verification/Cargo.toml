[package]
name = "fejixwm"
version = "0.1.0"
edition = "2021"
publish = false

[dependencies]
xcb = { version = "*", features = ["sync", "xlib_xcb"] }
x11 = { version = "*", features = ["xlib"] }
