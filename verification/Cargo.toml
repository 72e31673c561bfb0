[package]
name = "image_asset"
version = "0.1.0"
edition = "2021"
publish = false

[dependencies]
image = { version = "*", default-features = false, features = ["png", "jpeg", "gif", "bmp", "tga", "tiff", "webp"] }
fixedbitset = "*"
anyhow = "*"
thiserror = "*"
