[package]
name = "sonic3d_autosplitter"
version = "0.1.0"
edition = "2021"
publish = false

[dependencies]
spinning_top = "=0.2.5"
