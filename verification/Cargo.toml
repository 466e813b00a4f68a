[package]
name = "env_macro"
version = "0.1.0"
edition = "2021"
publish = false

[dependencies]
cairo-lang-filesystem = "=2.11.4"
cairo-lang-macro = "=0.1.1"
cairo-lang-parser = "=2.11.4"
cairo-lang-syntax = "=2.11.4"
cairo-lang-utils = "=2.11.4"

[dev-dependencies]
num-bigint = "=0.4.8"
