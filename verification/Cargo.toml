[package]
name = "windows_exe_info"
version = "0.1.0"
edition = "2021"
publish = false

[dependencies]
build_cfg = "*"
camino = "*"
embed-resource = "*"
