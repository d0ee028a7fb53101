[package]
name = "mml"
version = "0.1.0"
edition = "2021"
publish = false

[dependencies]
nanohtml2text = "0.1"
mail-parser = "0.8"
mail-builder = "0.3"
process-lib = "*"
thiserror = "1"
log = "0.4"
