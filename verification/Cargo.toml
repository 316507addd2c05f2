[package]
name = "snake"
version = "0.1.0"
edition = "2021"
publish = false

[dependencies]
bevy = { version = "=0.7.0", default-features = false, features = ["bevy_winit", "render", "x11"] }
# Not called: its macros switch on the "full" feature of syn 1, which the
# derive macros of bevy 0.7 need and do not ask for themselves.
darling = "=0.13.4"
fastrand = "=1.9.0"
