[package]
name = "benzene"
version = "0.1.0"
edition = "2021"
publish = false

[dependencies]
slotmap = "=1.1.1"
ash = "=0.38.0"
ash-window = "0.13"
winit = "=0.30.13"
nalgebra = "=0.33.3"
thiserror = "=2.0.21"
