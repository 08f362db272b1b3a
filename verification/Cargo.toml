[package]
name = "compression_multiplexer"
version = "0.1.0"
edition = "2021"
publish = false

[dependencies]
flate2 = "*"
banzai = "*"
bzip2-rs = "*"
lz4_flex = "*"
lzma-rust2 = "*"
zstd = "*"
