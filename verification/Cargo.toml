[package]
name = "pulse_events"
version = "0.1.0"
edition = "2021"
publish = false

[dependencies]
clap = "2"
ctrlc = "3"
libpulse-binding = "2"
