[package]
name = "resourced"
version = "0.1.0"
edition = "2021"
publish = false

[dependencies]
anyhow = "1"
glob = "0.3"
libc = "0.2"
log = "0.4"
once_cell = "1"
rand_core = "0.4"
sys_util = "*"
thiserror = "1"
