[package]
name = "whisper_stt"
version = "0.1.0"
edition = "2021"
publish = false

[dependencies]
ringbuf = "=0.4.8"
earshot = "=0.1.0"
cpal = "=0.18.2"
rubato = "=0.16.2"
