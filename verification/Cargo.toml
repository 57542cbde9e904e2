[package]
name = "widget_core"
version = "0.1.0"
edition = "2021"
publish = false

[dependencies]
orbclient = "=0.4.6"
