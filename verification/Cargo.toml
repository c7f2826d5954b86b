[package]
name = "timeline_view"
version = "0.1.0"
edition = "2021"
publish = false

[dependencies]
nostrdb = "=0.9.0"
egui = "=0.29.1"
egui_tabs = "=0.2.1"
tracing = "0.1"
