[package]
name = "frame_snapshot"
version = "0.1.0"
edition = "2021"
publish = false

[dependencies]
anyhow = "=1.0.104"
derive_more = "=0.99.20"
gdk-pixbuf = { version = "=0.9.0", features = ["v2_36"] }
gio = "=0.9.1"
glib = "=0.10.3"
gstreamer = "=0.16.7"
gstreamer-app = "=0.16.5"
gstreamer-video = "=0.16.7"
