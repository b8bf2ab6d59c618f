[package]
name = "midi_atom"
version = "0.1.0"
edition = "2021"
publish = false

[dependencies]
lv2rs-atom = "*"
lv2rs-urid = "*"
