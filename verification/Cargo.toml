[package]
name = "w25q256jv"
version = "0.1.0"
edition = "2021"
publish = false

[dependencies]
embedded-hal = "1"
embedded-hal-async = "1"
embedded-storage = "0.3"
embedded-storage-async = "0.4"
littlefs2 = "*"
generic-array = "*"
