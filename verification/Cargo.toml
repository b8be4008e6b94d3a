[package]
name = "metronome"
version = "0.1.0"
edition = "2021"
publish = false

[dependencies]
rodio = { version = "=0.17.3", default-features = false, features = ["wav"] }
