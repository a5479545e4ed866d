[package]
name = "pura"
version = "0.1.0"
edition = "2021"
publish = false

[dependencies]
chrono = { version = "=0.4.45", default-features = false, features = ["std", "serde"] }
clap = { version = "=4.6.7", features = ["derive"] }
colored = "=3.1.1"
fast_image_resize = { version = "=6.1.0", features = ["image"] }
futures = "=0.3.34"
image = { version = "=0.25.10", default-features = false, features = ["gif", "jpeg", "png", "webp"] }
indicatif = "=0.18.6"
lofty = "=0.25.4"
log = "=0.4.34"
reqwest = "=0.12.28"
rogue_config = "=0.2.0"
rogue_logging = { version = "=0.7.4", features = ["log"] }
rss = "=2.1.2"
scraper = { version = "=0.29.0", default-features = false }
serde = { version = "=1.0.229", features = ["derive"] }
serde_json = "=1.0.154"
serde_yaml = "=0.9.34"
sha2 = "=0.10.9"
strum_macros = "=0.28.0"
tokio = { version = "=1.54.1", features = ["fs", "io-util", "macros", "rt-multi-thread"] }
url = { version = "=2.5.8", features = ["serde"] }
urlencoding = "=2.1.3"
