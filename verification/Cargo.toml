[package]
name = "pysprint_cli"
version = "0.1.0"
edition = "2021"
publish = false

[dependencies]
clap = "4"
indicatif = "*"
notify = "*"
serde_json = "1"
serde_yaml = "0.9"
tempfile = "3"
termcolor = "1"
