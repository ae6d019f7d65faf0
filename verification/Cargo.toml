[package]
name = "p2p"
version = "0.1.0"
edition = "2021"
publish = false

[dependencies]
abstract-ns = "0.3"
app_dirs = "1"
bytes = "0.4"
clap = "2"
env_logger = "0.5"
futures = "0.1"
futures-cpupool = "0.1"
log = "0.4"
log4rs = "1"
ns-dns-tokio = "0.3"
parking_lot = "0.12"
tokio-core = "0.1"
tokio-io = "0.1"
