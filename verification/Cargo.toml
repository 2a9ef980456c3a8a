[package]
name = "kalman_2d_multivariate_xy_car"
version = "0.1.0"
edition = "2021"
publish = false

[dependencies]
matrix = "*"
num-traits = "0.2"
