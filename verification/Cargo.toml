[package]
name = "vsock"
version = "0.2.6"
edition = "2021"
publish = false

[dependencies]
getrandom = "0.2"
libc = "0.2"
nix = "0.23"
