[package]
name = "termtastic"
version = "0.1.0"
edition = "2021"
publish = false

[dependencies]
base64 = "=0.22.1"
unicode-width = "=0.2.3"
regex = "=1.13.1"
meshtastic = { version = "=0.1.9", default-features = false, features = ["serde"] }
serde = { version = "=1.0.229", features = ["derive"] }
chrono = "=0.4.45"
hostaddr = "=1.0.0"
emoji = "=0.2.1"
thiserror = "=2.0.21"
tui-widget-list = "=0.15.3"
serde_json = "=1.0.154"
