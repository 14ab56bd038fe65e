[package]
name = "nes_core"
version = "0.1.0"
edition = "2021"
publish = false

[dependencies]
anyhow = "=1.0.104"
glium = "=0.32.1"
imgui = { version = "=0.11.0", features = ["tables-api"] }
imgui-glium-renderer = "=0.11.0"
num-traits = "=0.2.19"
serde = "=1.0.229"
