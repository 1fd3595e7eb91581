[package]
name = "dock_launcher"
version = "0.1.0"
edition = "2021"
publish = false

[dependencies]
x11rb = { version = "0.12", features = ["image"] }
xdgkit = "3"
which = "4"
hostname = "0.3"
exec = "0.3"
arrform = "0.1"
image = "0.24"
resvg = "0.35"
usvg = "0.35"
