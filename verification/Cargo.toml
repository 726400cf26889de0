[package]
name = "hallways"
version = "0.1.0"
edition = "2021"
publish = false

[dependencies]
serde = { version = "=1.0.229", features = ["derive"] }
serde_json = "=1.0.154"
url = "=2.5.8"
ureq = "=2.12.1"
image = { version = "=0.25.10", default-features = false, features = ["bmp", "dds", "exr", "ff", "gif", "hdr", "ico", "jpeg", "png", "pnm", "qoi", "tga", "tiff", "webp"] }
rodio = { version = "=0.20.1", default-features = false, features = ["vorbis"] }
glam = { version = "=0.29.3", features = ["serde"] }
lru = "=0.12.5"
rayon = "=1.12.0"
strum = { version = "=0.26.3", features = ["derive"] }
parry3d = "=0.17.6"
