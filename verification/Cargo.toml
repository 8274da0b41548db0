[package]
name = "glib_object"
version = "0.1.0"
edition = "2021"
publish = false

[dependencies]
glib-sys = "0.7"
gobject-sys = "0.7"
