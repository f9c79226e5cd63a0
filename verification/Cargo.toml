[package]
name = "obj_mesh"
version = "0.1.0"
edition = "2021"
publish = false

[dependencies]
scan_fmt = "0.1"
png = "*"
chrono = "*"
