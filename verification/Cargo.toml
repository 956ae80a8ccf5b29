[package]
name = "barbarosa"
version = "0.1.0"
edition = "2021"
publish = false

[dependencies]
rand = "0.8"
nalgebra = "0.32"
palette = "0.7"
crossterm = "0.27"
chrono = "0.4"
thiserror = "1"
