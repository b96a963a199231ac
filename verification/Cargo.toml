[package]
name = "conduit"
version = "0.1.0"
edition = "2021"
publish = false

[dependencies]
bytes = "1"
http = "0.2"
http-body = "0.4"
hyper = "0.14"
