[package]
name = "archivist_front"
version = "0.1.0"
edition = "2021"
publish = false

[dependencies]
tera = "=1.20.1"
iron = "=0.6.1"
mount = "=0.4.0"
router = "=0.6.0"
clap = "=2.34.0"
iron-archivist = "=0.1.0-alpha.1"
