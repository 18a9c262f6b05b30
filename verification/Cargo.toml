[package]
name = "xilem_understory_scroll"
version = "0.1.0"
edition = "2021"
publish = false

[dependencies]
accesskit = "0.21"
color = "0.3.3"
masonry = "0.4.0"
tracing = "0.1.44"
understory_virtual_list = "0.1.2"
