[package]
name = "tox_node"
version = "0.1.0"
edition = "2021"
publish = false

[dependencies]
tox = "=0.1.1"
futures = "=0.3.34"
tokio = { version = "=0.2.25", features = ["rt-core", "rt-threaded", "tcp", "udp", "dns", "stream", "sync", "time"] }
failure = "=0.1.8"
log = "=0.4.34"
env_logger = "=0.11.11"
hex = "=0.4.3"
itertools = "=0.15.0"
clap = "=4.6.7"
syslog = "=7.0.0"
