[package]
name = "harbinger"
version = "0.1.0"
edition = "2021"
publish = false

[dependencies]
nvim-oxi = { version = "0.5", features = ["neovim-0-10"] }
thiserror = "1"
unicode-width = "0.2"
