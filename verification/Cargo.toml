[package]
name = "plotxy"
version = "0.1.0"
edition = "2021"
publish = false

[dependencies]
clap = { version = "=4.6.7", features = ["derive"] }
colorgrad = { version = "=0.9.0", features = ["named-colors"] }
plotters = { version = "=0.3.7", default-features = false, features = ["bitmap_backend", "bitmap_encoder", "svg_backend", "ab_glyph", "all_elements", "full_palette"] }
polars = { version = "=0.55.2", default-features = false, features = ["csv"] }
