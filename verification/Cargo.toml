[package]
name = "command_resolver"
version = "0.1.0"
edition = "2021"
publish = false

[dependencies]
zed_extension_api = "*"
