[package]
name = "plbattle"
version = "0.1.0"
edition = "2021"
publish = false

[dependencies]
c_str_macro = "=1.0.3"
lazy_static = "=1.5.1"
swipl-sys = "=0.1.0"
