[package]
name = "reverb"
version = "0.1.0"
edition = "2021"
publish = false

[dependencies]
postcard = { version = "1", features = ["alloc"] }
serde = { version = "1", features = ["derive"] }
im = "15"
lru = "0.12"
anyhow = "1"
arc-swap = "1"
once_cell = "1"
toml = "0.8"
crossterm = "0.28"
tokio = { version = "1", features = ["rt-multi-thread", "macros"] }
quinn = { version = "0.11", default-features = false, features = ["log", "runtime-tokio", "rustls-ring"] }
quinn-proto = { version = "0.11", default-features = false, features = ["log", "rustls-ring"] }
rustls = { version = "0.23", default-features = false, features = ["ring", "std", "logging", "tls12"] }
rcgen = "0.13"
rodio = "0.21"
lofty = "0.22"
audiotags = "0.5"
