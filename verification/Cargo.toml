[package]
name = "cortex"
version = "0.1.0"
edition = "2021"
publish = false

[dependencies]
cpal = "0.13"
deepspeech = "0.9"
