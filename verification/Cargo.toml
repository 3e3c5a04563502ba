[package]
name = "find_empty_workspace"
version = "0.1.0"
edition = "2021"
publish = false

[dependencies]
eyre = "*"
i3_ipc = "*"
structopt = "*"
