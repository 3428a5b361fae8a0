[package]
name = "bmp_speaker"
version = "0.1.0"
edition = "2021"
publish = false

[dependencies]
routes = "=0.1.0"
routecore = { version = "=0.4.0", features = ["bmp"] }
anyhow = "*"
clap = "*"
const_format = "*"
easy-repl = "*"
