[package]
name = "clap_hot_reloader"
version = "0.1.0"
edition = "2021"
publish = false

[dependencies]
blake3 = "=1.8.7"
clack-extensions = { version = "=0.2.0", features = ["audio-ports", "clack-host", "clack-plugin", "gui", "latency", "note-ports", "params", "state", "timer"] }
clack-host = { version = "=0.2.0", features = ["clack-plugin"] }
clack-plugin = "=0.2.0"
crossbeam-channel = "=0.5.17"
crossbeam-utils = "=0.8.23"
libloading = "=0.8.9"
notify-debouncer-full = "=0.7.0"
tempfile = "=3.27.0"
