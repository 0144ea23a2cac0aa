[package]
name = "intercom_notifier"
version = "0.1.0"
edition = "2021"
publish = false

[dependencies]
actix-web = "*"
actix-web-httpauth = "*"
actix-web-prom = "*"
futures-util = "*"
prometheus = "*"
webhook = "*"
