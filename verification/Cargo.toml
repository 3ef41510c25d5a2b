[package]
name = "ministrace"
version = "0.1.0"
edition = "2021"
publish = false

[dependencies]
shell-quote = "*"
nix = { version = "*", features = ["ptrace", "signal", "process"] }
clap = { version = "*", features = ["derive", "env"] }
humantime = "*"
thiserror = "*"
tracing = "*"
tracing-logfmt = "*"
tracing-subscriber = { version = "*", features = ["json"] }
