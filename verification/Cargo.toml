[package]
name = "vento"
version = "0.1.0"
edition = "2021"
publish = false

[dependencies]
anyhow = "1"
chrono = "0.4"
clap = { version = "4", features = ["derive"] }
colored = "2"
config = "0.14"
dirs = "5"
fs_extra = "1"
rusqlite = { version = "0.31", features = ["bundled"] }
serde = { version = "1", features = ["derive"] }
size_format = "1"
tar = "0.4"
termion = "2"
xz2 = "0.1"
