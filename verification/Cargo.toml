[package]
name = "aoc_solution"
version = "0.1.0"
edition = "2021"
publish = false

[dependencies]
esb_fireplace = "*"
