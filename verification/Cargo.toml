[package]
name = "ner_cli"
version = "0.1.0"
edition = "2021"
publish = false

[dependencies]
clap = "2.34"
env_logger = "0.11"
log = "0.4"
