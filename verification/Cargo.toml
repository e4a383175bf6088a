[package]
name = "pass_the_pigs"
version = "0.1.0"
edition = "2021"
publish = false
