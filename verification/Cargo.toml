[package]
name = "pdf_extract"
version = "0.1.0"
edition = "2021"
publish = false

[dependencies]
adobe-cmap-parser = "*"
cff-parser = "*"
encoding_rs = "*"
euclid = "*"
log = "*"
lopdf = "*"
thiserror = "*"
