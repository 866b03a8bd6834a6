[package]
name = "csharp_tooling"
version = "0.1.0"
edition = "2021"
publish = false

[dependencies]
zip = "*"
zed_extension_api = "*"
