[package]
name = "gentoo_render"
version = "0.1.0"
edition = "2021"
publish = false

[dependencies]
anyhow = "=1.0.104"
ash = "=0.37.3"
ash-window = "=0.12.0"
glam = "=0.22.0"
log = "=0.4.34"
memoffset = "=0.9.1"
raw-window-handle = "=0.5.2"
simple_logger = "=4.3.3"
thiserror = "=1.0.69"
tobj = "=3.2.5"
winit = "=0.27.5"
