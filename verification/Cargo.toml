[package]
name = "gst_launch_multi"
version = "0.1.0"
edition = "2021"
publish = false

[dependencies]
anyhow = "1"
clap = { version = "4", features = ["derive"] }
gstreamer = "0.22"
text_io = "0.1"
tokio = { version = "1", features = ["rt-multi-thread", "macros", "sync", "time"] }
