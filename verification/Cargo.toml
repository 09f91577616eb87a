[package]
name = "xan_actor"
version = "0.1.0"
edition = "2021"
publish = false

[dependencies]
regex = "1"
uuid = { version = "1", features = ["v4"] }
tokio = { version = "1", features = ["full"] }
xancode = "*"
xanq = "*"
async-trait = "*"
thiserror = "*"
inventory = "*"
log = "*"
