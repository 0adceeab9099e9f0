[package]
name = "solarography"
version = "0.1.0"
edition = "2021"
publish = false

[dependencies]
spa = "*"
chrono = "0.4"
gtk4 = "*"
gdk-pixbuf = "*"
