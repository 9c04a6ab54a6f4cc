[package]
name = "lib_rpc"
version = "0.1.0"
edition = "2021"
publish = false

[dependencies]
uuid = "1"
time = { version = "0.3", features = ["formatting", "parsing"] }
serde_json = "1"
