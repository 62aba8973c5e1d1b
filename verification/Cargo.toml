[package]
name = "grumpy_clippy"
version = "0.1.0"
edition = "2021"
publish = false

[dependencies]
argh = "=0.1.19"
chrono = "=0.4.45"
crossbeam = "=0.8.5"
ctrlc = "=3.5.2"
eframe = { version = "=0.31.1", default-features = false, features = ["glow", "default_fonts", "x11"] }
egui = { version = "=0.31.1", default-features = false }
git2 = { version = "=0.21.0", default-features = false }
image = { version = "=0.25.10", default-features = false, features = ["png"] }
notify = "=8.2.1"
regex = "=1.13.1"
serde = { version = "=1.0.229", features = ["derive"] }
serde_json = "=1.0.154"
syn = { version = "=2.0.119", features = ["full", "visit"] }
toml = "=0.8.23"
