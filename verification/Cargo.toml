[package]
name = "glutin"
version = "0.30.8"
edition = "2021"
publish = false

[dependencies]
tao = "0.16"
gtk = "0.15"
gdk = "0.15"
gl_loader = "0.1"
