[package]
name = "decoder_fallback"
version = "0.1.0"
edition = "2021"
publish = false

[dependencies]
gstreamer = "0.23"
tracing = "=0.1.44"
