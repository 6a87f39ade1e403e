[package]
name = "audio_core"
version = "0.1.0"
edition = "2021"
publish = false

[dependencies]
ringbuf = "=0.5.2"
symphonia = { version = "=0.6.1", features = ["mp3"] }
rubato = "=5.0.1"
audioadapter-buffers = "=5.2.0"
