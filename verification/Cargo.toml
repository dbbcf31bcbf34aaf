[package]
name = "gamma_daemon"
version = "0.1.0"
edition = "2021"
publish = false

[dependencies]
battery = "*"
bulbb = "*"
daemonize = "*"
serde = { version = "1", features = ["derive"] }
toml = "*"
