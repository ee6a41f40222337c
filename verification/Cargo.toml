[package]
name = "xue_hua_video_player"
version = "0.1.0"
edition = "2021"
publish = false

[dependencies]
anyhow = "1"
log = "0.4"
parking_lot = "0.12"
once_cell = "1"
gstreamer = "*"
gstreamer-app = "*"
gstreamer-video = "*"
irondash_texture = "0.5"
