[package]
name = "autoclicker"
version = "0.1.0"
edition = "2021"
publish = false

[dependencies]
rand = "0.8"
rand_distr = "0.4"
evdev = "0.12"
serde = { version = "1", features = ["derive"] }
serde_json = "1"
dirs = "5"
libc = "0.2"
relm4 = { version = "0.9", features = ["libadwaita"] }
gtk4 = "0.9"
libadwaita = { version = "0.7", features = ["v1_3"] }
