[package]
name = "linear_math"
version = "0.1.0"
edition = "2021"
publish = false

[dependencies]
cint = "0.3"
mint = "0.5"
rand = "0.8"
rand_derive2 = "0.1"
serde = { version = "1", features = ["derive"] }
