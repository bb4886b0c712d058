[package]
name = "tiny_dfr"
version = "0.1.0"
edition = "2021"
publish = false

[dependencies]
serde_json = "*"
chrono = { version = "*", features = ["unstable-locales"] }
toml = "*"
serde = { version = "*", features = ["derive"] }
anyhow = "*"
nix = { version = "*", features = ["event", "signal", "inotify"] }
libc = "*"
input = "*"
input-linux = "*"
input-linux-sys = "*"
udev = "*"
privdrop = "*"
drm = "*"
cairo-rs = { version = "*", features = ["png"] }
freetype-rs = "*"
librsvg-rebind = "*"
freedesktop-icons = "*"
