[package]
name = "fast_dbc_to_c"
version = "0.1.0"
edition = "2021"
publish = false

[dependencies]
can-dbc = "=6.0.0"
yes-or-no = "=0.1.1"
