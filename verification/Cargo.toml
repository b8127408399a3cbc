[package]
name = "slog"
version = "0.1.0"
edition = "2021"
publish = false

[dependencies]
serde_json = "1"
ansi_term = "0.12"
chrono = "0.4"
isatty = "0.1"
nix = { version = "0.29", features = ["hostname", "process"] }
libc = "0.2"
log = "0.4"
syslog = "*"
libsystemd-sys = "*"
