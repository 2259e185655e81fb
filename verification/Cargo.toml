[package]
name = "kooha"
version = "0.1.0"
edition = "2021"
publish = false

[dependencies]
anyhow = "1"
gettext-rs = "0.7"
gstreamer = "0.21"
gstreamer-pbutils = "0.21"
gstreamer-video = "0.21"
gtk4 = "0.7"
libadwaita = "0.5"
log = "0.4"
once_cell = "1"
tracing = "0.1"
