[package]
name = "libslirp"
version = "0.1.0"
edition = "2021"
publish = false

[dependencies]
slab = "0.4"
mio = "0.6"
mio-extras = "2"
libc = "0.2"
structopt = "0.3"
