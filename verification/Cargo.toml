[package]
name = "audio_reader"
version = "0.1.0"
edition = "2021"
publish = false

[dependencies]
symphonia = "=0.5.5"
symphonia-core = "=0.5.5"
