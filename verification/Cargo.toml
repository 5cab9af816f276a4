[package]
name = "midi_sync"
version = "0.1.0"
edition = "2021"
publish = false

[dependencies]
fugit = "0.3"
usb-device = "0.2"
usbd-serial = "0.1"
