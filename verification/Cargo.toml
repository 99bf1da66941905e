[package]
name = "nvim_redraw"
version = "0.1.0"
edition = "2021"
publish = false

[dependencies]
async-trait = "*"
nvim-rs = { version = "*", features = ["use_tokio"] }
rmpv = "*"
tokio = { version = "*", features = ["macros", "process", "rt-multi-thread"] }
