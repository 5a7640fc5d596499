[package]
name = "steam_user"
version = "0.1.0"
edition = "2021"
publish = false

[dependencies]
steamworks-sys = "*"
thiserror = "1"
