[package]
name = "tictactoe"
version = "0.1.0"
edition = "2021"
publish = false

[dependencies]
rand = "0.8"
druid = "0.8"
keyframe = "1"
defaults = "*"
