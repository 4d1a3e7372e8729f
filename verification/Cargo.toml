[package]
name = "cococa_clip"
version = "0.1.0"
edition = "2021"
publish = false

[dependencies]
arboard = "*"
block = "*"
cocoa = "*"
core-graphics = "*"
env_logger = "*"
global-hotkey = "*"
log = "*"
objc = "*"
png = "*"
resvg = "*"
rusqlite = { version = "*", features = ["bundled"] }
tray-icon = "*"
