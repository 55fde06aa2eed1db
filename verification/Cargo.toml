[package]
name = "initramfs_lib"
version = "0.1.0"
edition = "2021"
publish = false

[dependencies]
rusl = "*"
tiny-std = "*"
unix-print = "*"
