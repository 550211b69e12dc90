[package]
name = "processkeeper"
version = "1.0.0"
edition = "2021"
publish = false

[dependencies]
clap = "2"
daemonize = "0.4"
signal-hook = "0.3"
subprocess = "0.2"
