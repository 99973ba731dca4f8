[package]
name = "isrbe"
version = "0.1.0"
edition = "2021"
publish = false

[dependencies]
mysql = { version = "=17.0.0", default-features = false }
rocket = "0.5"
rocket_dyn_templates = { version = "0.2", features = ["tera"] }
serde = { version = "=1.0.229", features = ["derive"] }
serde_derive = "=1.0.229"
