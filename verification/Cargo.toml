[package]
name = "image_assets"
version = "0.1.0"
edition = "2021"
publish = false

[dependencies]
anyhow = "=1.0.104"
futures = "=0.3.34"
image = { version = "=0.24.9", default-features = false, features = ["png", "jpeg", "gif", "bmp", "ico", "webp", "tiff", "pnm", "tga"] }
# Named for its feature alone: without it the JPEG decoder picks its arithmetic
# by the CPU it runs on, and the same file decodes to other pixels elsewhere.
jpeg-decoder = { version = "=0.3.2", default-features = false, features = ["platform_independent"] }
log = "=0.4.34"
parking_lot = "=0.12.5"
resvg = "=0.41.0"
thiserror = "=1.0.69"
