[package]
name = "niri_core"
version = "0.1.0"
edition = "2021"
publish = false

[dependencies]
anyhow = "1"
calloop = "*"
leaprs = "*"
libc = "0.2"
pango = "*"
pangocairo = "*"
smithay = { version = "*", default-features = false }
tracing = "0.1"
tracy-client = { version = "*", default-features = false }
