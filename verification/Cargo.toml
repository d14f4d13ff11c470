[package]
name = "tf2_scan"
version = "0.1.0"
edition = "2021"
publish = false

[dependencies]
a2s = "*"
argh = "0.1"
chrono = "0.4"
json = "0.12"
owo-colors = "*"
rayon = "1"
rusqlite = { version = "*", features = ["bundled"] }
serde = { version = "1", features = ["derive"] }
toml = "*"
ureq = "2"
