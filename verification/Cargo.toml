[package]
name = "spicy"
version = "0.1.0"
edition = "2021"
publish = false

[dependencies]
elektron_ngspice = "=0.1.4"
futures-channel = "=0.3.34"
futures-util = "=0.3.34"
glib = "0.18"
gtk4 = { version = "0.7", features = ["v4_10"] }
libadwaita = { version = "0.5", features = ["v1_3"] }
sourceview5 = "0.7"
gettext-rs = { version = "0.7", features = ["gettext-system"] }
plotters = { version = "=0.3.7", default-features = false, features = ["line_series"] }
plotters-gtk4 = "0.3"
anyhow = "=1.0.104"
tracing = "=0.1.44"
tracing-subscriber = "=0.3.23"
