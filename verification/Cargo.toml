[package]
name = "task_system"
version = "0.1.0"
edition = "2021"
publish = false

[dependencies]
threadpool = "1.8"
