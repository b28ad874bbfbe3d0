[package]
name = "untar"
version = "1.0.1"
edition = "2021"
publish = false

[dependencies]
tar = "=0.4.46"
flate2 = "=1.1.10"
xz2 = "=0.1.7"
bzip2 = "=0.4.4"
zip = "=2.6.1"
clap = { version = "=4.6.7", features = ["derive"] }
anyhow = "=1.0.104"
