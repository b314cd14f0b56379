[package]
name = "export_metadata"
version = "0.1.0"
edition = "2021"
publish = false

[dependencies]
clap = "3.2"
kamadak-exif = "0.5"
serde_json = "1"
thiserror = "1"
