[package]
name = "mdcat_core"
version = "0.1.0"
edition = "2021"
publish = false

[dependencies]
anstyle = "1"
resvg = { version = "0.36", default-features = false, features = ["text", "system-fonts", "memmap-fonts"] }
thiserror = "1"
