[package]
name = "legend_shot"
version = "0.1.0"
edition = "2021"
publish = false

[dependencies]
global-hotkey = "=0.8.0"
image = { version = "=0.25.10", default-features = false, features = ["png", "jpeg"] }
serde = { version = "=1.0.229", features = ["derive"] }
serde_json = "=1.0.154"
clap = { version = "=4.6.7", features = ["derive"] }
directories = "=6.0.0"
egui = "=0.37.0"
xcap = "=0.9.8"
arboard = "=3.7.0"
