[package]
name = "libearthquake"
version = "0.1.0"
edition = "2021"
publish = false

[dependencies]
anyhow = "1"
binrw = "0.8"
bstr = "0.2"
byteorder = "1"
pico-args = "0.4"
slab = "0.4"
