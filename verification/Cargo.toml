[package]
name = "contrivance"
version = "0.1.0"
edition = "2021"
publish = false

[dependencies]
tokenizers = { version = "0.22", default-features = false, features = ["onig"] }
ndarray = "0.16"
ort = { version = "=2.0.0-rc.10", default-features = false, features = ["ndarray", "load-dynamic"] }
iced = { version = "0.14", default-features = false, features = ["wgpu", "advanced"] }
glam = "0.30"
bytemuck = { version = "1", features = ["derive"] }
image = { version = "0.25", default-features = false, features = ["png"] }
log = "0.4"
candle-core = "0.9"
candle-nn = "0.9"
