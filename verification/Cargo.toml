[package]
name = "phishurl"
version = "0.1.0"
edition = "2021"
publish = false

[dependencies]
url = "=2.5.8"
csv = "=1.4.0"

[dependencies.rusqlite]
version = "=0.40.2"
features = ["bundled", "backup"]
