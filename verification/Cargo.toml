[package]
name = "aoc-userpatch"
version = "0.1.0"
edition = "2021"
publish = false

[dependencies]
tokio = "0.1"
tokio-process = "0.2"
