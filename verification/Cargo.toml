[package]
name = "ultra_fast_file_search"
version = "0.1.0"
edition = "2021"
publish = false

[dependencies]
num-format = "0.4"
sysinfo = "*"
serde = { version = "1", features = ["derive"] }
serde_json = "1"
colored = "2"
clap = { version = "4", features = ["derive"] }
wmi = "*"
windows = { version = "*", features = ["Win32_Foundation", "Win32_Storage_FileSystem"] }
anyhow = "1"
thiserror = "1"
miette = "*"
tracing = "0.1"
log = "0.4"
ignore = "0.4"
