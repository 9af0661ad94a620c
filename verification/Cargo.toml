[package]
name = "save_palette"
version = "0.1.0"
edition = "2021"
publish = false

[dependencies]
gtk4 = "0.6"
libadwaita = { version = "0.3", features = ["v1_2"] }
gtk-macros = "0.3"
log = "0.4"
