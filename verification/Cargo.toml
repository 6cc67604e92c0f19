[package]
name = "thief_autosplitter"
version = "0.1.0"
edition = "2021"
publish = false

[dependencies]
bytemuck = "=1.25.2"
once_cell = "=1.21.4"
spinning_top = "=0.3.0"
