[package]
name = "nx"
version = "0.1.0"
edition = "2021"
publish = false

[dependencies]
linked_list_allocator = "*"
