[package]
name = "helvum"
version = "0.1.0"
edition = "2021"
publish = false

[dependencies]
async-channel = "*"
env_logger = "*"
glib = "*"
gtk4 = "*"
libadwaita = "*"
libc = "*"
log = "*"
once_cell = "*"
pipewire = "*"
