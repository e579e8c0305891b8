[package]
name = "foxfire"
version = "0.1.0"
edition = "2021"
publish = false

[dependencies]
dark-light = "1"
druid = "0.8"
image = "0.24"
open_with = "*"
preferences = "*"
trash = "*"
wallpaper = "*"
