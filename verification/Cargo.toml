[package]
name = "devpanel"
version = "0.1.0"
edition = "2021"
publish = false

[dependencies]
anyhow = "*"
dirs = "*"
nix = { version = "*", features = ["signal", "process"] }
portable-pty = "*"
serde = { version = "*", features = ["derive"] }
serde_json = "*"
sysinfo = "*"
uuid = { version = "*", features = ["v4"] }
vt100 = "*"
