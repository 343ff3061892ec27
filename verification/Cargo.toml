[package]
name = "samp_bcrypt"
version = "0.4.0"
edition = "2021"
publish = false

[dependencies]
log = "*"
samp = "*"
threadpool = "*"
