[package]
name = "rconntrack"
version = "0.1.0"
edition = "2021"
publish = false

[dependencies]
netlink-packet-core = "*"
netlink-packet-netfilter = "*"
netlink-packet-utils = "*"
netlink-sys = { version = "*", features = ["tokio_socket"] }
ipnet = "2"
futures = "0.3"
tokio = { version = "1", features = ["full"] }
async-trait = "0.1"
clap = { version = "4", features = ["derive"] }
serde = { version = "1", features = ["derive"] }
serde_json = "1"
thiserror = "*"
pin-project-lite = "0.2"
