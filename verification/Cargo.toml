[package]
name = "house_query"
version = "0.1.0"
edition = "2021"
publish = false

[dependencies]
pinyin = "=0.10.0"
unicode-width = "=0.1.14"
regex = "=1.13.1"
scraper = { version = "=0.20.0", default-features = false, features = ["errors"] }
chrono = { version = "=0.4.45", default-features = false, features = ["std", "alloc"] }
reqwest = { version = "=0.12.28", default-features = false, features = ["blocking"] }
eframe = { version = "=0.29.1", default-features = false, features = ["glow", "default_fonts", "x11"] }
env_logger = { version = "=0.11.11", default-features = false }
lazy_static = "=1.5.1"
