[package]
name = "exospot"
version = "0.1.0"
edition = "2021"
publish = false

[dependencies]
anyhow = "*"
bytes = "*"
crossterm = { version = "*", features = ["event-stream"] }
futures = "*"
futures-util = "*"
image = { version = "*", default-features = false, features = ["jpeg", "png"] }
open = "*"
ratatui = "*"
reqwest = { version = "*", default-features = false, features = ["stream"] }
rodio = { version = "*", default-features = false }
symphonia = { version = "*", features = ["mp3"] }
tokio = { version = "*", features = ["full"] }
urlencoding = "*"
viuer = "*"
