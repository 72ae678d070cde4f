[package]
name = "drive_loop"
version = "0.1.0"
edition = "2021"
publish = false

[dependencies]
anyhow = "=1.0.104"
cstr_core = "=0.2.6"
embedded-graphics-core = "=0.3.3"
esp-idf-hal = "=0.47.0"
esp-idf-svc = "=0.53.0"
log = "=0.4.34"
lvgl = "=0.6.2"
lvgl-sys = "=0.6.2"
