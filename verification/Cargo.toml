[package]
name = "midi_remap"
version = "0.1.0"
edition = "2021"
publish = false

[dependencies]
clap = "2.33"
midir = "0.7"
midly = { version = "0.5", default-features = false, features = ["std", "alloc"] }
serde = { version = "1", features = ["derive"] }
serde_json = "1"
