[package]
name = "music_player"
version = "0.1.0"
edition = "2021"
publish = false

[dependencies]
confy = "=2.0.0"
eframe = { version = "0.32", default-features = false, features = ["glow", "default_fonts", "x11"] }
egui_extras = { version = "0.32", default-features = false }
emath = "0.32"
id3 = "=1.17.2"
itertools = "=0.12.1"
rand = "=0.8.8"
rayon = "=1.12.0"
rb = "=0.4.1"
rfd = { version = "=0.17.2", default-features = false, features = ["xdg-portal"] }
serde = { version = "=1.0.229", features = ["derive"] }
symphonia = { version = "=0.5.5", features = ["mp3"] }
tracing = "=0.1.44"
tracing-subscriber = "=0.3.23"
walkdir = "=2.5.0"
