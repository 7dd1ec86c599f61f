[package]
name = "panda_console"
version = "0.1.0"
edition = "2021"
publish = false

[dependencies]
gfx = "=0.18.3"
gfx_text = "=0.33.0"
gfx_window_glutin = "=0.31.0"
glutin = "=0.21.2"
log = "=0.4.34"
