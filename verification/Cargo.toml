[package]
name = "power_sampler"
version = "0.1.0"
edition = "2021"
publish = false

[dependencies]
rusb = "0.9"
actix-web = "4"
