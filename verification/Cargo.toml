[package]
name = "dcm_redact"
version = "0.1.0"
edition = "2021"
publish = false

[dependencies]
anyhow = "1"
dicom = { version = "0.8", default-features = false, features = ["pixeldata"] }
image = { version = "0.25", default-features = false, features = ["jpeg", "png", "tiff"] }
rfd = { version = "0.15", default-features = false, features = ["xdg-portal", "tokio"] }
