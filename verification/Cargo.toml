[package]
name = "member_expression"
version = "0.1.0"
edition = "2021"
publish = false

[dependencies]
boa_interner = "0.16"
