[package]
name = "facial_processing"
version = "0.1.0"
edition = "2021"
publish = false

[dependencies]
image = "*"
nalgebra = "*"
thiserror = "*"
opencv = "*"
dlib-face-recognition = "*"
cl3 = "*"
vulkano = "*"
