[package]
name = "first_person_camera"
version = "0.1.0"
edition = "2021"
publish = false

[dependencies]
cgmath = "=0.18.0"
uni-app = "0.2"
