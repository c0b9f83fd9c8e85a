[package]
name = "milkv_duo_hal"
version = "0.1.0"
edition = "2021"
publish = false

[dependencies]
embedded-io = "0.6"
riscv-rt-macros = "0.2"
