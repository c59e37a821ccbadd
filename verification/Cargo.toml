[package]
name = "battgui"
version = "0.1.0"
edition = "2021"
publish = false

[dependencies]
battery = "0.7"
chrono = "0.4"
iced = { version = "0.13", default-features = false, features = ["canvas", "tokio", "tiny-skia"] }
plotters = { version = "0.3", default-features = false, features = ["chrono", "area_series"] }
plotters-iced = "0.11"
