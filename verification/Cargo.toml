[package]
name = "token_lottery"
version = "0.1.0"
edition = "2021"
publish = false

[dependencies]
switchboard-on-demand = "=0.13.0"
