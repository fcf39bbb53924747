[package]
name = "xtask"
version = "0.1.0"
edition = "2021"
publish = false

[dependencies]
fatfs = { version = "=0.3.6", default-features = false, features = ["std", "alloc"] }
clap = { version = "=4.6.7", features = ["derive"] }
axfs = "=0.3.0-preview.3"
axio = "=0.2.1"
axstd = "=0.3.0-preview.3"
