[package]
name = "fcnet"
version = "0.1.0"
edition = "2021"
publish = false

[dependencies]
cidr = "=0.3.2"
clap = { version = "=4.6.7", features = ["derive"] }
futures-channel = "=0.3.34"
futures-util = "=0.3.34"
nftables = "=0.6.3"
nftables-async = { version = "=0.4.1", features = ["tokio-driver"] }
nix = { version = "=0.31.3", features = ["sched", "mount", "fs"] }
rtnetlink = "=0.14.1"
tokio = { version = "=1.54.1", features = ["rt", "rt-multi-thread", "macros", "process"] }
tokio-tun = "=0.15.2"
