[package]
name = "sjconv"
version = "0.1.0"
edition = "2021"
publish = false

[dependencies]
argh = "*"
fft-convolver = "*"
hound = "*"
jack = "*"
