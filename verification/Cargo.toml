[package]
name = "image_converter"
version = "0.1.0"
edition = "2021"
publish = false

[dependencies]
image = { version = "0.25", default-features = false, features = ["jpeg", "png", "bmp", "gif", "tiff", "webp"] }
webp = "0.3"
walkdir = "2"
rayon = "1"
tokio = { version = "1", features = ["rt-multi-thread", "sync"] }
anyhow = "1"
log = "0.4"
env_logger = { version = "0.11", default-features = false }
once_cell = "1"
serde = { version = "1", features = ["derive"] }
serde_json = "1"
dirs = "5"
pdfium-render = "0.8"
printpdf = "0.7"
