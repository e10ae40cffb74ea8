[package]
name = "radio_tui"
version = "0.1.0"
edition = "2021"
publish = false

[dependencies]
crossterm = "0.27"
serde = { version = "1", features = ["derive"] }
ureq = { version = "1", default-features = false, features = ["json"] }
