[package]
name = "xv2_save_convert"
version = "0.1.0"
edition = "2021"
publish = false

[dependencies]
sha1 = "0.10"
anyhow = "1"
clap = { version = "4", features = ["derive"] }
