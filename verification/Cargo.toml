[package]
name = "deferred_demo"
version = "0.1.0"
edition = "2021"
publish = false

[dependencies]
approx = "=0.1.1"
conrod = "=0.57.0"
find_folder = "=0.3.0"
genmesh = "=0.4.3"
gfx = "0.18"
gfx_core = "0.9"
gfx_window_glutin = "0.31"
glutin = "0.21"
image = "=0.12.4"
lazy_static = "=0.2.11"
log = "=0.3.9"
nalgebra = "=0.32.6"
noise = "=0.4.1"
obj = "=0.5.0"
rand = "=0.3.23"
