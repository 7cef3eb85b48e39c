[package]
name = "xexamai"
version = "0.1.0"
edition = "2021"
publish = false

[dependencies]
anyhow = "=1.0.104"
base64 = "=0.22.1"
bytemuck = "=1.25.2"
cpal = "=0.15.3"
crossbeam-channel = "=0.5.17"
windows = { version = "=0.54.0", features = ["Win32_Foundation", "Win32_Media_Audio", "Win32_System_Com"] }
