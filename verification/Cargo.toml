[package]
name = "keytide"
version = "1.0.0"
edition = "2021"
publish = false

[dependencies]
aes-gcm = "=0.10.3"
getrandom = "=0.3.4"
zeroize = "=1.9.1"
tracing = "=0.1.44"
tracing-subscriber = { version = "=0.3.23", features = ["env-filter"] }
eframe = { version = "=0.37.0", default-features = false, features = ["glow", "default_fonts", "x11"] }
egui = "=0.37.0"
egui_extras = { version = "=0.37.0", default-features = false }
rfd = { version = "=0.17.2", default-features = false, features = ["xdg-portal"] }
