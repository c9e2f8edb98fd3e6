[package]
name = "luminous"
version = "0.1.0"
edition = "2021"
publish = false

[dependencies]
anyhow = "=1.0.104"
calloop = "=0.14.5"
calloop-wayland-source = "=0.4.1"
csscolorparser = "=0.9.0"
dialoguer = { version = "=0.12.0", features = ["fuzzy-select"] }
notify = "=8.2.0"
reis = { version = "*", features = ["calloop"] }
rustix = { version = "=1.1.5", features = ["fs", "shm"] }
serde = { version = "=1.0.229", features = ["derive"] }
serde_json = "=1.0.154"
signal-hook = "=0.4.5"
tempfile = "=3.27.0"
thiserror = "=2.0.21"
toml = "=1.1.8"
tracing = "=0.1.44"
url = "=2.5.8"
wayland-client = "=0.31.15"
wayland-protocols-misc = { version = "=0.3.12", features = ["client"] }
wayland-protocols-wlr = { version = "=0.3.12", features = ["client"] }
xkbcommon = "=0.9.0"
