[package]
name = "daktilo_tray"
version = "0.1.0"
edition = "2021"
publish = false

[dependencies]
auto-launch = "=0.6.0"
core-foundation = "=0.9.4"
daktilo_lib = "=0.6.1"
directories = "=6.0.0"
image = { version = "=0.25.10", default-features = false, features = ["png"] }
rdev = "=0.5.3"
rodio = { version = "=0.17.3", default-features = false }
serde = { version = "=1.0.229", features = ["derive"] }
toml = "=0.8.23"
tracing = "=0.1.44"
tracing-subscriber = { version = "=0.3.23", features = ["env-filter"] }
