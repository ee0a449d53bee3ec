[package]
name = "air_link"
version = "0.1.0"
edition = "2021"
publish = false

[dependencies]
clap = { version = "4", default-features = false, features = ["derive", "std", "help", "usage"] }
eframe = { version = "0.29", default-features = false, features = ["glow", "x11"] }
image = { version = "0.25", default-features = false }
nokhwa = { version = "0.10", features = ["input-v4l"] }
ort = { version = "2.0.0-rc.10", default-features = false, features = ["std", "load-dynamic"] }
thiserror = "1"
tokio = { version = "1", features = ["rt-multi-thread", "macros"] }
tracing = "0.1"
tracing-subscriber = { version = "0.3", default-features = false, features = ["fmt"] }
uinput = "0.1"
