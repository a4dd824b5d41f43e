[package]
name = "romanize"
version = "0.1.0"
edition = "2021"
publish = false

[dependencies]
hangeul = "=0.3.0"
tempfile = "*"
unicode-normalization = "=0.1.25"
wana_kana = "=1.0.0"
zip = "*"
