[package]
name = "yaobow_script"
version = "0.1.0"
edition = "2021"
publish = false

[dependencies]
byteorder = "1"
xxtea = "*"
