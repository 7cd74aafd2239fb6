[package]
name = "wezterm"
version = "0.1.0"
edition = "2021"

[dependencies]
phf_codegen = "0.11"
regex = "1"
serde = { version = "1", features = ["derive"] }
unicode-segmentation = "1"
unicode-width = "0.1"
