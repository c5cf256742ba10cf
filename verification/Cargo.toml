[package]
name = "point_query_probe"
version = "0.1.0"
edition = "2021"
publish = false

[dependencies]
tempfile = "3"
