[package]
name = "audio_tap"
version = "0.1.0"
edition = "2021"
publish = false

[dependencies]
cpal = "=0.18.2"
pulsectl-rs = "=0.3.2"
rustfft = "=6.4.1"
dasp = { version = "=0.11.0", features = ["signal", "window", "window-hanning"] }
thiserror = "=1.0.69"
