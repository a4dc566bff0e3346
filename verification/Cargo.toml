[package]
name = "min_pe_parser"
version = "0.1.0"
edition = "2021"
publish = false

[dependencies]
simple_endian = "*"
bitflags = "2"
