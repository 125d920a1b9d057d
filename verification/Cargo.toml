[package]
name = "timeline_layout"
version = "0.1.0"
edition = "2021"
publish = false

[dependencies]
dioxus = "0.6"
lazy_static = "1"
ron = "0.8"
serde = { version = "1", features = ["derive"] }
