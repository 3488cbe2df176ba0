[package]
name = "rocket_sass_fairing"
version = "0.1.0"
edition = "2021"
publish = false

[dependencies]
grass = { version = "*", default-features = false, features = ["random"] }
normpath = "*"
rocket = { version = "0.5", default-features = false }
