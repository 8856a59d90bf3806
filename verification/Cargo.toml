[package]
name = "rust_plugin_1"
version = "0.1.0"
edition = "2021"
publish = false

[dependencies]
clap-sys = "*"
nih_plug_core = "=0.1.2"
nih_plug_iced = "=0.1.2"
parking_lot = "=0.12.5"
