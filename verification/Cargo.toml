[package]
name = "oxideterm"
version = "0.1.0"
edition = "2021"
publish = false

[dependencies]
base64 = "=0.22.1"
minisign-verify = "=0.2.5"
zeroize = "=1.9.1"
tempfile = "=3.27.0"
tokio = { version = "=1.54.1", features = ["net", "rt", "sync", "time"] }
windows = { version = "=0.58.0", features = ["Win32_Foundation", "Win32_Security", "Win32_System_JobObjects", "Win32_System_Threading"] }
