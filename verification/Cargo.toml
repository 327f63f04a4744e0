[package]
name = "casperlabs-engine-grpc-server"
version = "0.1.0"
edition = "2021"
publish = false

[dependencies]
clap = "2"
dirs = "1.0"
grpc = "0.6"
lmdb = "0.8"
