[package]
name = "ili9341"
version = "0.5.0"
edition = "2021"
publish = false

[dependencies]
display-interface = "0.4.1"
embedded-graphics-core = "0.3.3"
embedded-hal = "0.2.7"
