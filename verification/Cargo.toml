[package]
name = "aaxsplit"
version = "0.1.0"
edition = "2021"
publish = false

[dependencies]
clap = "2.33"
ffmpeg4 = "*"
hex-slice = "0.1"
rayon = "1"
