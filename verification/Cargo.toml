[package]
name = "tsbind"
version = "0.1.0"
edition = "2021"
publish = false

[dependencies]
swc_common = "*"
swc_ecma_ast = "*"
swc_ecma_parser = "*"
syn = { version = "2", features = ["full"] }
prettyplease = "0.2"
walkdir = "2"
