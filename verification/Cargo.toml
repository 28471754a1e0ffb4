[package]
name = "planck_scribe"
version = "0.1.0"
edition = "2021"
publish = false

[dependencies]
midly = "0.5"
