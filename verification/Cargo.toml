[package]
name = "latch_panel"
version = "0.1.0"
edition = "2021"
publish = false

[dependencies]
embedded-graphics = "*"
st7735-lcd = "*"
esp-idf-svc = "*"
log = "*"
