[package]
name = "whatawhat_watcher"
version = "0.1.0"
edition = "2021"
publish = false

[dependencies]
freedesktop-desktop-entry = "=0.8.3"
pelite = "=0.10.0"
serde_json = "=1.0.151"
sysinfo = "=0.39.6"
wayland-client = "=0.31.15"
wayland-protocols = { version = "=0.32.13", features = ["client", "staging"] }
wayland-protocols-wlr = { version = "=0.3.12", features = ["client"] }
xcb = { version = "=1.7.1", features = ["screensaver"] }
zbus = "=5.19.0"
