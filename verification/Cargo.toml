[package]
name = "easy_node"
version = "0.1.0"
edition = "2021"
publish = false

[dev-dependencies]
drop_tracer = "=0.2.1"
