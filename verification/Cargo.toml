[package]
name = "rdma_ring_buffer"
version = "0.1.0"
edition = "2021"
publish = false

[dependencies]
crossbeam = "0.8"
rand = "0.8"
clap = { version = "4", features = ["derive"] }
rdma-sys = "0.3"
shared_memory = "0.12"
quanta = "0.12"
uninit = "0.6"
zerocopy = { version = "0.7", features = ["derive"] }
