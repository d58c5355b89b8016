[package]
name = "inkplate_touch"
version = "0.1.0"
edition = "2021"
publish = false

[dependencies]
anyhow = "1"
log = "0.4"
embedded-hal = "0.2"
esp-idf-svc = "0.48"
shared-bus = { version = "0.3", features = ["std"] }
static_cell = "2"
