[package]
name = "ainput"
version = "0.1.0"
edition = "2021"
publish = false

[dependencies]
evdev = "0.13"
input-linux = "0.7"
