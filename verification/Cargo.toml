[package]
name = "loudgainer"
version = "0.1.0"
edition = "2021"
publish = false

[dependencies]
claxon = "=0.4.3"
ebur128 = "=0.1.10"
env_logger = "*"
gumdrop = "=0.8.1"
infer = "=0.22.0"
lofty = "=0.25.4"
log = "*"
metaflac = "=0.2.8"
symphonia = "=0.5.5"
