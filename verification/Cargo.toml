[package]
name = "luminair_graph"
version = "0.1.0"
edition = "2021"
publish = false

[dependencies]
luminal = "0.2.0"
