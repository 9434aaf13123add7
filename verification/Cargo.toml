[package]
name = "attribute_store"
version = "0.1.0"
edition = "2021"
publish = false

[dependencies]
gstd = "*"
gmeta = "*"
primitive-types = "*"
