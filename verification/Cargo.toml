[package]
name = "memtester"
version = "0.1.0"
edition = "2021"
publish = false

[dependencies]
rand = "0.8"
region = "3"
num_cpus = "1"
