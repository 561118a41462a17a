[package]
name = "amberol"
version = "0.1.0"
edition = "2021"
publish = false

[dependencies]
rand = "=0.8.8"
sha2 = "=0.10.9"
color-thief = "=0.2.2"
lofty = "=0.6.3"
log = "0.4"
pretty_env_logger = "0.4"
glib = "=0.15.12"
gtk4 = "0.4"
gstreamer = "=0.18.8"
gstreamer-audio = "=0.18.7"
gstreamer-player = "=0.18.0"
mpris-player = "=0.6.3"
