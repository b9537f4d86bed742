[package]
name = "atom_sampler"
version = "0.1.0"
edition = "2021"
publish = false

[dependencies]
bus = "2.4"
crossbeam-channel = "0.5"
egui = "0.27"
hound = "3.5"
jack = "0.11"
ringbuf = "0.4"
