[package]
name = "ndotter"
version = "1.0.0"
edition = "2021"
publish = false

[dependencies]
svg = "*"
urlencoding = "2"
image = { version = "0.25", default-features = false, features = ["png", "jpeg", "gif", "bmp", "webp", "tiff", "ico"] }
clap = { version = "4", features = ["derive"] }
anyhow = "1"
open = "5"
thiserror = "*"
