[package]
name = "spinup"
version = "0.1.0"
edition = "2021"
publish = false

[dependencies]
clap = { version = "3", features = ["derive"] }
crossterm = "0.25"
kira = "0.7"
symphonia = { version = "0.5", features = ["mp3", "wav", "ogg", "flac", "vorbis", "pcm"] }
tui = "0.19"
