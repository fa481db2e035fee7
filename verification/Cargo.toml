[package]
name = "mpv_wallpaper"
version = "0.1.0"
edition = "2021"
publish = false

[dependencies]
anyhow = "*"
calloop = "*"
calloop-wayland-source = "*"
ffmpeg-sys-next = "*"
libmpv2 = "*"
tracing = "*"
tracing-subscriber = { version = "*", features = ["env-filter"] }
wayland-client = "*"
wayland-backend = { version = "*", features = ["client_system", "dlopen"] }
wayland-protocols-wlr = { version = "*", features = ["client"] }
