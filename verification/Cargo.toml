[package]
name = "vector-field"
version = "0.1.0"
edition = "2021"
publish = false

[dependencies]
macroquad = "=0.4.16"
egui = "=0.31.1"
egui-macroquad = "=0.17.3"
