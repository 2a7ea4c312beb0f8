[package]
name = "item_tile"
version = "0.1.0"
edition = "2021"
publish = false

[dependencies]
heck = "0.4"
iced = "0.3"
