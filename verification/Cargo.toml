[package]
name = "veryl-discovery"
version = "0.1.0"
edition = "2021"
publish = false

[dependencies]
anyhow = "1"
chrono = { version = "=0.4.45", features = ["serde"] }
clap = { version = "4", features = ["derive"] }
octocrab = "0.44"
plotters = { version = "=0.3.7", default-features = false, features = ["svg_backend", "chrono", "line_series"] }
reqwest = { version = "=0.12.28", default-features = false, features = ["json", "rustls-tls"] }
secrecy = "*"
semver = { version = "=1.0.28", features = ["serde"] }
serde = { version = "1", features = ["derive"] }
serde_json = "1"
tokio = { version = "1", features = ["macros", "rt-multi-thread", "time"] }
url = { version = "=2.5.8", features = ["serde"] }
walkdir = "2"
which = "=8.0.6"
zip-extract = "=0.4.1"
