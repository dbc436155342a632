[package]
name = "aocsuite"
version = "0.1.0"
edition = "2021"
publish = false

[dependencies]
chrono = "=0.4.45"
chrono-tz = "=0.10.4"
clap = { version = "=4.6.7", features = ["derive"] }
colored = "=3.1.1"
html2md = "=0.2.17"
regex = "=1.13.1"
reqwest = { version = "=0.13.5", features = ["blocking", "form"] }
scraper = "=0.29.0"
serde = { version = "=1.0.229", features = ["derive"] }
serde_json = "=1.0.154"
thiserror = "=2.0.21"
toml_edit = "=0.25.17"
which = "=8.0.6"
