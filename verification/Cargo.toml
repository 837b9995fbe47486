[package]
name = "hot_reload_lib"
version = "0.1.0"
edition = "2021"
publish = false

[dependencies]
libloading = "0.8"
notify = "4.0"
rand = "0.8"
