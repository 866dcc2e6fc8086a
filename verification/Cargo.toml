[package]
name = "material_log"
version = "0.1.0"
edition = "2021"
publish = false

[dependencies]
chrono = "=0.4.45"
rocket = "0.5"
rocket_dyn_templates = { version = "*", features = ["tera"] }
serde = { version = "=1.0.229", features = ["derive"] }
slug = "=0.1.6"
toml = "=0.5.11"
