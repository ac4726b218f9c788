[package]
name = "pigment64"
version = "0.1.0"
edition = "2021"
publish = false

[dependencies]
png = "0.17"
byteorder = "1"
anyhow = "1"
thiserror = "2"
strum_macros = "0.26"
num_enum = "0.7"
