[package]
name = "btsnoop_extcap"
version = "0.1.0"
edition = "2021"
publish = false

[dependencies]
anyhow = "=1.0.104"
clap = { version = "=4.6.7", features = ["derive"] }
dirs-next = "=2.0.0"
log = "=0.4.34"
log4rs = "=1.4.0"
regex = "=1.13.1"
shlex = "=2.0.1"
thiserror = "=2.0.21"
tokio = { version = "=1.53.2", features = ["full"] }
which = "*"

[dev-dependencies]
btsnoop = "=0.2.1"
pcap-file = "=2.0.0"
