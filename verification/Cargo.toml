[package]
name = "selene"
version = "0.1.0"
edition = "2021"
publish = false

[dependencies]
nalgebra = "=0.34.2"
argmin = "=0.11.0"
argmin-math = { version = "=0.5.1", features = ["nalgebra_latest"] }
num-traits = "=0.2.19"
plotters = { version = "=0.3.7", default-features = false, features = ["bitmap_backend", "bitmap_encoder", "line_series"] }
