[package]
name = "prompt"
version = "0.1.0"
edition = "2021"
publish = false

[dependencies]
clap = "2"
git2 = { version = "*", default-features = false }
hostname = "0.1"
regex = "1"
termion = "1.5"
