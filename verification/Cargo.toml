[package]
name = "message_row"
version = "0.1.0"
edition = "2021"
publish = false

[dependencies]
glib = "*"
gtk4 = "*"
tdlib = "*"
