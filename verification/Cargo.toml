[package]
name = "video_player"
version = "0.1.0"
edition = "2021"
publish = false

[dependencies]
crossbeam-channel = "=0.5.17"
directories = "=6.0.0"
fruitbasket = "=0.10.0"
gio = "0.20"
glib = "0.20"
gstreamer = "0.23"
gstreamer-player = "0.23"
self_update = { version = "=1.3.1", default-features = false }
