[package]
name = "sampler"
version = "0.1.0"
edition = "2021"
publish = false

[dependencies]
cpal = "0.13"
hound = "3.4"
midir = "0.7"
ringbuf = "0.2"
sofiza = "*"
