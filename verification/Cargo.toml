[package]
name = "duration_format"
version = "0.1.0"
edition = "2021"
publish = false

[dependencies]
icu_locid = "1"
icu_decimal = "1"
icu_provider = "1"
boa_gc = "0.18"
boa_macros = "0.18"
